pub mod deno;
pub mod npm;
pub mod pixi;
