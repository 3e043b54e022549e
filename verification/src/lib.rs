pub mod backend;
pub mod controller;
pub mod forms;
pub mod input;
pub mod mock;
pub mod model;
pub mod paging;
pub mod text;
pub mod wire;
