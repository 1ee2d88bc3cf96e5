pub mod classify;
pub mod normalize;
pub mod records;
pub mod repr;
pub mod units;

pub use classify::classify_unit;
pub use classify::classify_units;
pub use classify::words_from_scan;
pub use normalize::Language;
pub use normalize::StemmerEx;
pub use records::classify_record;
pub use records::IOid;
pub use records::Input;
pub use records::Output;
pub use repr::Representation;
pub use units::LexUnit;
pub use units::NumericalKind;
