//! The window descriptor that the renderer reads, and a builder for it.
use vstd::prelude::*;

verus! {

/// Window position and size. Any values are accepted, negative ones included.
#[derive(Debug, Clone, Copy, PartialEq, Eq)]
pub struct WindowPosition {
    /// X coordinate of the window.
    pub x: i32,
    /// Y coordinate of the window.
    pub y: i32,
    /// Width of the window.
    pub width: i32,
    /// Height of the window.
    pub height: i32,
}

impl Default for WindowPosition {
    fn default() -> (r: Self)
        ensures
            r.x == 0 && r.y == 0 && r.width == 0 && r.height == 0,
    {
        WindowPosition { x: 0, y: 0, width: 0, height: 0 }
    }
}

/// Information about a window.
#[derive(Debug, Clone)]
pub struct WindowInfo {
    /// Window handle.
    pub hwnd: isize,
    /// Process ID.
    pub pid: u32,
    /// Window title.
    pub title: String,
    /// Window class name.
    pub class_name: String,
    /// Process name.
    pub process_name: String,
    /// Process file path, in its display form.
    pub process_file: String,
    /// Index in the enumeration.
    pub index: usize,
    /// Window position and size.
    pub position: WindowPosition,
}

/// The text held in an optional field, or the empty text when it is unset.
pub open spec fn text_or_empty(t: Option<String>) -> Seq<char> {
    match t {
        Some(s) => s@,
        None => Seq::empty(),
    }
}

impl WindowInfo {
    /// A builder whose fields are all unset.
    pub fn builder() -> (r: WindowInfoBuilder)
        ensures
            r.hwnd is None,
            r.pid is None,
            r.title is None,
            r.class_name is None,
            r.process_name is None,
            r.process_file is None,
            r.index is None,
            r.position is None,
    {
        WindowInfoBuilder {
            hwnd: None,
            pid: None,
            title: None,
            class_name: None,
            process_name: None,
            process_file: None,
            index: None,
            position: None,
        }
    }
}

/// Builder for `WindowInfo`; a field left unset is zero or empty in the built record.
pub struct WindowInfoBuilder {
    /// Window handle, if set.
    pub hwnd: Option<isize>,
    /// Process ID, if set.
    pub pid: Option<u32>,
    /// Window title, if set.
    pub title: Option<String>,
    /// Window class name, if set.
    pub class_name: Option<String>,
    /// Process name, if set.
    pub process_name: Option<String>,
    /// Process file path in its display form, if set.
    pub process_file: Option<String>,
    /// Index in the enumeration, if set.
    pub index: Option<usize>,
    /// Window position and size, if set.
    pub position: Option<WindowPosition>,
}

impl WindowInfoBuilder {
    /// Set the window handle.
    pub fn hwnd(self, hwnd: isize) -> (r: Self)
        ensures
            r == (WindowInfoBuilder { hwnd: Some(hwnd), ..self }),
    {
        WindowInfoBuilder { hwnd: Some(hwnd), ..self }
    }

    /// Set the process ID.
    pub fn pid(self, pid: u32) -> (r: Self)
        ensures
            r == (WindowInfoBuilder { pid: Some(pid), ..self }),
    {
        WindowInfoBuilder { pid: Some(pid), ..self }
    }

    /// Set the window title.
    pub fn title(self, title: String) -> (r: Self)
        ensures
            r == (WindowInfoBuilder { title: Some(title), ..self }),
    {
        WindowInfoBuilder { title: Some(title), ..self }
    }

    /// Set the window class name.
    pub fn class_name(self, class_name: String) -> (r: Self)
        ensures
            r == (WindowInfoBuilder { class_name: Some(class_name), ..self }),
    {
        WindowInfoBuilder { class_name: Some(class_name), ..self }
    }

    /// Set the process name.
    pub fn process_name(self, process_name: String) -> (r: Self)
        ensures
            r == (WindowInfoBuilder { process_name: Some(process_name), ..self }),
    {
        WindowInfoBuilder { process_name: Some(process_name), ..self }
    }

    /// Set the process file path, in its display form.
    pub fn process_file(self, process_file: String) -> (r: Self)
        ensures
            r == (WindowInfoBuilder { process_file: Some(process_file), ..self }),
    {
        WindowInfoBuilder { process_file: Some(process_file), ..self }
    }

    /// Set the index.
    pub fn index(self, index: usize) -> (r: Self)
        ensures
            r == (WindowInfoBuilder { index: Some(index), ..self }),
    {
        WindowInfoBuilder { index: Some(index), ..self }
    }

    /// Set the window position.
    pub fn position(self, position: WindowPosition) -> (r: Self)
        ensures
            r == (WindowInfoBuilder { position: Some(position), ..self }),
    {
        WindowInfoBuilder { position: Some(position), ..self }
    }

    /// Build the record: each set field is taken as given, each unset one is zero or empty.
    pub fn build(self) -> (r: WindowInfo)
        ensures
            r.hwnd == (match self.hwnd { Some(v) => v, None => 0 }),
            r.pid == (match self.pid { Some(v) => v, None => 0 }),
            r.title@ == text_or_empty(self.title),
            r.class_name@ == text_or_empty(self.class_name),
            r.process_name@ == text_or_empty(self.process_name),
            r.process_file@ == text_or_empty(self.process_file),
            r.index == (match self.index { Some(v) => v, None => 0 }),
            r.position == (match self.position {
                Some(p) => p,
                None => WindowPosition { x: 0, y: 0, width: 0, height: 0 },
            }),
    {
        WindowInfo {
            hwnd: match self.hwnd {
                Some(v) => v,
                None => 0,
            },
            pid: match self.pid {
                Some(v) => v,
                None => 0,
            },
            title: match self.title {
                Some(v) => v,
                None => String::new(),
            },
            class_name: match self.class_name {
                Some(v) => v,
                None => String::new(),
            },
            process_name: match self.process_name {
                Some(v) => v,
                None => String::new(),
            },
            process_file: match self.process_file {
                Some(v) => v,
                None => String::new(),
            },
            index: match self.index {
                Some(v) => v,
                None => 0,
            },
            position: match self.position {
                Some(p) => p,
                None => WindowPosition::default(),
            },
        }
    }
}

} // verus!
