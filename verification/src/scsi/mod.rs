pub mod mode_parameter;
