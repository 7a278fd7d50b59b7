pub mod get_sensor_reading;
pub mod sensor_reading;

pub use get_sensor_reading::SensorReading;
pub use sensor_reading::RawSensorReading;
