pub mod act;
pub mod actinput;
pub mod appstate;
pub mod artist;
pub mod artistform;
pub mod avfield;
pub mod city;
pub mod cityform;
pub mod datacolumn;
pub mod datatable;
pub mod date;
pub mod digits;
pub mod error;
pub mod events;
pub mod filter;
pub mod form;
pub mod gig;
pub mod gigform;
pub mod graph;
pub mod listinput;
pub mod nav;
pub mod record;
pub mod savebutton;
pub mod sort;
pub mod text;
pub mod textinput;
pub mod venue;
pub mod venueform;
