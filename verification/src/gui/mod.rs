pub mod imguidebug;
