//! Value types for light control parameters.

pub mod brightness;
pub mod color;
pub mod fan;
pub mod hue_saturation;
pub mod kelvin;
pub mod power;
pub mod ratio;
pub mod scene;
pub mod speed;
pub mod white;

pub use brightness::Brightness;
pub use color::Color;
pub use color::ColorRGBW;
pub use color::ColorRGBWW;
pub use fan::FanDirection;
pub use fan::FanMode;
pub use fan::FanSpeed;
pub use fan::FanState;
pub use hue_saturation::HueSaturation;
pub use kelvin::Kelvin;
pub use power::PowerMode;
pub use ratio::Ratio;
pub use scene::SceneMode;
pub use speed::Speed;
pub use white::White;
