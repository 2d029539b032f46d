pub mod b64;
pub mod text;
pub mod csv_convert;
pub mod gen_pass;
