//! A retained-mode widget core: lenses that focus on parts of the
//! application data, and a widget protocol (event, lifecycle, update, layout
//! and paint) with a decorator that enables a subtree while a predicate holds.
pub mod controls;
pub mod enabled_if;
pub mod flex;
pub mod geometry;
pub mod lens;
pub mod lens_wrap;
pub mod widget;
