//! A single dated time-series, the reflow of its date span, the scales that
//! place it on a canvas and the plan of the line chart drawn from it.
pub mod date;
pub mod data_point;
pub mod chart_model;
pub mod scale;
pub mod chart_plan;
