//! Month-calendar core: Gregorian date arithmetic, the month grid shown by a
//! calendar widget, and the navigation cursor that drives it.

pub mod calendar;
pub mod text;
pub mod navigation;
