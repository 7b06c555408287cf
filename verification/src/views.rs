//! The screens of the application and what each does with a key.

pub mod home;
