//! Verified logic of a design studio: annotation documents, text rules, component
//! definitions, drag placement and the session state around them.
#![allow(unused_imports)]
use vstd::prelude::*;

pub mod annotation_laws;
pub mod annotations;
pub mod automation;
pub mod canvas;
pub mod commands;
pub mod components;
pub mod definitions;
pub mod dispatch;
pub mod documents;
pub mod drag;
pub mod edit_session;
pub mod event_hooks;
pub mod events;
pub mod excerpt;
pub mod execution;
pub mod float_bits;
pub mod history;
pub mod identifiers;
pub mod inspector;
pub mod keyed;
pub mod layer_rows;
pub mod overlays;
pub mod panel_rows;
pub mod panels;
pub mod presets;
pub mod resources;
pub mod review;
pub mod runtime;
pub mod session;
pub mod state_hooks;
pub mod stub;
pub mod studio;
pub mod surfaces;
pub mod text;
pub mod text_set;
pub mod tree_edits;
pub mod tree_queries;
pub mod tree_session;
pub mod values;

verus! {

} // verus!
