//! ISO 3166-1 country codes: a fixed table of every assigned country or
//! territory with its two-letter code, three-letter code, English short name
//! and three-digit numeric code, and lookups into it by each of those fields.
//!
//! Lookups by alpha-2 and alpha-3 code accept ASCII letters of either case;
//! lookups by numeric code and by name match the stored text exactly. Input
//! that matches no record, malformed or not, gives `None`.
pub mod lookup;
pub mod record;
pub mod table;

pub use lookup::{lookup_by_alpha2, lookup_by_alpha3, lookup_by_name, lookup_by_num};
pub use record::CountryCode;
pub use table::all;
