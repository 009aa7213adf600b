//! A headhunt simulator: rarity rolls with soft and hard pity, rate-up
//! resolution, and operator selection from configured pools.

pub mod banner;
pub mod banner_rng;
pub mod random_source;
pub mod toml_banner;

pub use banner::{Banner, EmptyPoolError};
pub use banner_rng::{BannerType, Rarity};
pub use random_source::RandomSource;
pub use toml_banner::{ConfigError, TomlBanner};
