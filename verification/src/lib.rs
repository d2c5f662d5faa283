pub mod greeting;
pub mod paths;
pub mod qr;
