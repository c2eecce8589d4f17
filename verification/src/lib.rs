//! The core of a text editor for the terminal: the lines of a document and
//! the form in which they are shown, the cursor and the window that
//! follows it, what each key does, and what a frame on the screen holds.
//!
//! The library reads no key and touches no file or terminal. A program
//! around it hands it the keys and the text of the file, and sends the
//! frames that it draws to the terminal.
//!
//! Places in a line are counted in characters, columns on the screen in
//! cells; the two differ where a line holds tabs.

pub mod cursor;
pub mod draw;
pub mod editor;
pub mod keys;
pub mod lines;
pub mod output;
pub mod row;
pub mod rows;
pub mod screen;
pub mod status;
pub mod tabs;
pub mod text;
