pub mod bikes;
pub mod non_bluetooth_device;

pub use self::bikes::DebugBike;
pub use self::bikes::Iconsole0028Bike;
pub use self::non_bluetooth_device::NonBluetoothDevice;
