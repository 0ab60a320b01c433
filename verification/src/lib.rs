pub mod abstract_code_model;
pub mod casing;
pub mod dedup;
pub mod enum_gen;
pub mod generator;
pub mod strutil;
pub mod types;
pub mod validator;
pub mod xml_to_xsd;
pub mod xsd_model;
