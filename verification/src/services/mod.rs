pub mod ah;
pub mod recaptcha;
pub mod url;
