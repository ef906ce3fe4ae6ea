pub mod keep_until;
