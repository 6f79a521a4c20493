use kondis::devices::{DebugBike, Iconsole0028Bike, NonBluetoothDevice};
use kondis::errors::KondisError;
use kondis::{equipment_type_to_equipment, Equipment, EquipmentType};

#[test]
fn test_equipment_type_to_equipment() {
    let (_, mut shutdown_rx) = std::sync::mpsc::channel();
    let equipment =
        equipment_type_to_equipment(EquipmentType::NonBluetoothDevice, 10, &mut shutdown_rx);
    assert!(equipment.is_some());
    let mut equipment = equipment.unwrap();
    assert!(equipment.connect().unwrap());
    assert!(equipment.read().unwrap().is_some());
}

#[test]
fn test_shutdown_while_scanning() {
    let (shutdown_tx, mut shutdown_rx) = std::sync::mpsc::channel();

    let _ = shutdown_tx.send(());

    let equipment = Iconsole0028Bike::new(10, &mut shutdown_rx);

    assert!(equipment.is_err());
}

#[test]
fn test_shutdown_while_scanning_from_equipment_type() {
    let (shutdown_tx, mut shutdown_rx) = std::sync::mpsc::channel();

    let _ = shutdown_tx.send(());

    let equipment =
        equipment_type_to_equipment(EquipmentType::Iconsole0028Bike, 10, &mut shutdown_rx);

    assert!(equipment.is_none());
}

#[test]
fn shutdown_before_debug_bike_construction_cancels() {
    let (shutdown_tx, mut shutdown_rx) = std::sync::mpsc::channel();
    let _ = shutdown_tx.send(());
    match DebugBike::new(10, &mut shutdown_rx) {
        Err(KondisError::Cancelled) => {}
        _ => panic!("a waiting shutdown signal must cancel construction"),
    }
}

#[test]
fn simulated_device_scenario() {
    let (_, mut shutdown_rx) = std::sync::mpsc::channel();
    let mut device = NonBluetoothDevice::new(10, &mut shutdown_rx).unwrap();
    assert!(device.connect().unwrap());
    assert_eq!(
        device.set_target_cadence(32),
        Err(KondisError::Validation { value: 32, max_level: 10 })
    );
    assert_eq!(device.set_target_cadence(5), Ok(()));
    let record = device.read().unwrap();
    assert!(record.is_some());
    assert!(record.unwrap().time < u16::MAX);
}

#[test]
fn fresh_simulated_device_reads_zero_metrics() {
    let (_, mut shutdown_rx) = std::sync::mpsc::channel();
    let device = NonBluetoothDevice::new(10, &mut shutdown_rx).unwrap();
    let record = device.read().unwrap().unwrap();
    assert_eq!(record.speed, 0);
    assert_eq!(record.cadence, 0);
    assert_eq!(record.distance, 0);
    assert_eq!(record.resistance, 0);
    assert_eq!(record.power, 0);
    assert_eq!(record.calories, 0);
    assert_eq!(record.heart_rate, 0);
}

#[test]
fn simulated_device_rejects_out_of_range_targets() {
    let (_, mut shutdown_rx) = std::sync::mpsc::channel();
    let mut device = NonBluetoothDevice::new(20, &mut shutdown_rx).unwrap();
    assert_eq!(
        device.set_target_cadence(0),
        Err(KondisError::Validation { value: 0, max_level: 20 })
    );
    assert_eq!(
        device.set_target_power(21),
        Err(KondisError::Validation { value: 21, max_level: 20 })
    );
    assert_eq!(
        device.set_target_power(-3),
        Err(KondisError::Validation { value: -3, max_level: 20 })
    );
    assert_eq!(device.log.len(), 0);
}

#[test]
fn simulated_device_records_targets_with_monotone_stamps() {
    let (_, mut shutdown_rx) = std::sync::mpsc::channel();
    let mut device = NonBluetoothDevice::new(100, &mut shutdown_rx).unwrap();
    assert_eq!(device.set_target_cadence(60), Ok(()));
    assert_eq!(device.set_target_power(100), Ok(()));
    assert_eq!(device.set_target_power(1), Ok(()));
    assert_eq!(device.log.len(), 3);
    assert_eq!(device.log[0].value, 60);
    assert_eq!(device.log[1].value, 100);
    assert_eq!(device.log[2].value, 1);
    assert!(device.log[0].stamp <= device.log[1].stamp);
    assert!(device.log[1].stamp <= device.log[2].stamp);
    let record = device.read().unwrap().unwrap();
    assert!(record.time >= device.last_stamp);
    assert!(device.disconnect().is_ok());
}

#[test]
fn construction_decides_on_the_cancellation_flag() {
    assert!(matches!(
        Iconsole0028Bike::construct(10, true),
        Err(KondisError::Cancelled)
    ));
    assert!(matches!(DebugBike::construct(10, true), Err(KondisError::Cancelled)));
    let bike = Iconsole0028Bike::construct(10, false).unwrap();
    assert_eq!(bike.name, "iConsole+0028");
    let mut debug = DebugBike::construct(10, false).unwrap();
    assert_eq!(debug.name, "debug bike");
    // Tearing down a never-subscribed bike queues no stop frame.
    assert_eq!(debug.disconnect(), Ok(()));
    assert!(debug.outbox.is_empty());
}

#[test]
fn simulated_device_name_matches_its_description() {
    let (_, mut shutdown_rx) = std::sync::mpsc::channel();
    let device = NonBluetoothDevice::new(10, &mut shutdown_rx).unwrap();
    assert_eq!(device.name, "some hypothetical non-bluetooth device");
}

#[test]
fn factory_constructs_every_kind_without_signal() {
    let (_, mut shutdown_rx) = std::sync::mpsc::channel();
    assert!(
        equipment_type_to_equipment(EquipmentType::Iconsole0028Bike, 10, &mut shutdown_rx)
            .is_some()
    );
    assert!(equipment_type_to_equipment(EquipmentType::DebugBike, 10, &mut shutdown_rx).is_some());
    assert!(
        equipment_type_to_equipment(EquipmentType::NonBluetoothDevice, 10, &mut shutdown_rx)
            .is_some()
    );
}
