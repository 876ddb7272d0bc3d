pub mod fontx;
pub mod sjis;
