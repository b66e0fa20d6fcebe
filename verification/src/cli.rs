//! Command handlers: the computations behind the command line.  Reading
//! files and rendering to the console stay with the surrounding program.

pub mod commands;
