//! Lowering of build-plan operations into exact external command lines.

pub mod args;
pub mod build_common;
pub mod build_lower;
pub mod build_package;
pub mod bundle_core;
pub mod check;
pub mod compiler;
pub mod gen_test_driver;
pub mod link_core;
pub mod lower_aux;
pub mod model;
pub mod moondoc;
pub mod mooninfo;
pub mod path_order;
