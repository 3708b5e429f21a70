//! The state of the dashboard and what each key does to it.
use crate::monsoon::Response;
use vstd::prelude::*;

verus! {

/// How far the forecast of a location has come.
#[derive(Debug, PartialEq, Eq)]
pub enum ResponseStatus {
    /// The record is there.
    Loaded(Response),
    /// Nothing was fetched yet.
    NotLoaded,
    /// The fetch failed, for the reason given; it is not tried again.
    Error(String),
}

impl ResponseStatus {
    /// Tells whether the record is there.
    pub fn is_loaded(&self) -> (r: bool)
        ensures
            r == (self is Loaded),
    {
        match self {
            ResponseStatus::Loaded(_) => true,
            _ => false,
        }
    }

    /// Tells whether a fetch has ended, well or not, so that none is to be
    /// started.
    pub fn is_settled(&self) -> (r: bool)
        ensures
            r == !(self is NotLoaded),
    {
        match self {
            ResponseStatus::NotLoaded => false,
            _ => true,
        }
    }

    /// The status after a fetch that ended with `result`.
    pub fn settled(result: Result<Response, String>) -> (r: ResponseStatus)
        ensures
            match result {
                Ok(record) => r == ResponseStatus::Loaded(record),
                Err(cause) => r == ResponseStatus::Error(cause),
            },
    {
        match result {
            Ok(record) => ResponseStatus::Loaded(record),
            Err(cause) => ResponseStatus::Error(cause),
        }
    }
}

/// What the dashboard holds.
pub struct AppView {
    pub locations: nat,
    pub current_location_idx: nat,
    pub should_quit: bool,
    pub use_images: bool,
}

/// The dashboard: one tab for each location, one of them shown.
#[derive(Debug, PartialEq, Eq)]
pub struct App {
    locations: usize,
    current_location_idx: usize,
    should_quit: bool,
    use_images: bool,
}

impl View for App {
    type V = AppView;

    closed spec fn view(&self) -> AppView {
        AppView {
            locations: self.locations as nat,
            current_location_idx: self.current_location_idx as nat,
            should_quit: self.should_quit,
            use_images: self.use_images,
        }
    }
}

/// A key of the keyboard, as far as the dashboard tells keys apart.
#[derive(Clone, Copy, Debug, PartialEq, Eq, Structural)]
pub enum Key {
    Left,
    Right,
    Char(char),
    Other,
}

/// What is to be done after a key.
#[derive(Clone, Copy, Debug, PartialEq, Eq, Structural)]
pub struct Effect {
    /// The screen is to be cleared before it is drawn again.
    pub clear: bool,
    /// The forecast of this location is to be loaded unless it has been.
    pub load: Option<usize>,
}

/// How a cell of the forecast table is drawn.
#[derive(Clone, Copy, Debug, PartialEq, Eq, Structural)]
pub enum Cell {
    /// As the image of the symbol that the cell names.
    Image,
    /// As its text, unstyled.
    Plain,
    /// As its text in white, and in bold where it is a heading.
    Styled { bold: bool },
}

/// The tab to the left of `current`, or the first tab.
pub open spec fn left_of(current: nat) -> nat {
    if current == 0 {
        0
    } else {
        (current - 1) as nat
    }
}

/// The tab to the right of `current`, or the last of the `locations` tabs.
pub open spec fn right_of(current: nat, locations: nat) -> nat {
    if current + 1 < locations {
        current + 1
    } else {
        (locations - 1) as nat
    }
}

/// The state after the key `key` was typed.
pub open spec fn typed(state: AppView, key: char) -> AppView {
    if key == 'q' {
        AppView { should_quit: true, ..state }
    } else if key == 'i' {
        AppView { use_images: !state.use_images, ..state }
    } else {
        state
    }
}

/// The state after a key.
pub open spec fn after(state: AppView, key: Key) -> AppView {
    match key {
        Key::Left => AppView { current_location_idx: left_of(state.current_location_idx), ..state },
        Key::Right => AppView {
            current_location_idx: right_of(state.current_location_idx, state.locations),
            ..state
        },
        Key::Char(c) => typed(state, c),
        Key::Other => state,
    }
}

/// What is to be done after a key: moving to a tab loads its location, and
/// every key that the dashboard knows clears the screen.
pub open spec fn effect(state: AppView, key: Key) -> Effect {
    match key {
        Key::Left | Key::Right => Effect {
            clear: true,
            load: Some(after(state, key).current_location_idx as usize),
        },
        Key::Char(_) => Effect { clear: true, load: None },
        Key::Other => Effect { clear: false, load: None },
    }
}

/// How the cell in the given row and column is drawn. The first row and the
/// first column are headings; the four columns behind the first hold the
/// symbols, which are shown as images where images are in use and the cell
/// names one.
pub open spec fn cell_of(use_images: bool, row: nat, column: nat, has_image: bool) -> Cell {
    if use_images && row > 0 && 1 <= column <= 4 {
        if has_image {
            Cell::Image
        } else {
            Cell::Plain
        }
    } else {
        Cell::Styled { bold: row == 0 || column == 0 }
    }
}

/// Decides how the cell in the given row and column is drawn.
pub fn cell(use_images: bool, row: usize, column: usize, has_image: bool) -> (r: Cell)
    ensures
        r == cell_of(use_images, row as nat, column as nat, has_image),
{
    if use_images && row > 0 && 1 <= column && column <= 4 {
        if has_image {
            Cell::Image
        } else {
            Cell::Plain
        }
    } else {
        Cell::Styled { bold: row == 0 || column == 0 }
    }
}

impl App {
    #[verifier::type_invariant]
    spec fn shows_a_tab(self) -> bool {
        self.current_location_idx < self.locations
    }

    /// A dashboard of `locations` tabs that shows the first, with images in
    /// use.
    pub fn new(locations: usize) -> (app: App)
        requires
            locations > 0,
        ensures
            app@ == (AppView {
                locations: locations as nat,
                current_location_idx: 0,
                should_quit: false,
                use_images: true,
            }),
    {
        App { locations, current_location_idx: 0, should_quit: false, use_images: true }
    }

    /// The number of tabs.
    pub fn locations(&self) -> (r: usize)
        ensures
            r == self@.locations,
            r > 0,
    {
        proof {
            use_type_invariant(self);
        }
        self.locations
    }

    /// The tab that is shown.
    pub fn current_location_idx(&self) -> (r: usize)
        ensures
            r == self@.current_location_idx,
            r < self@.locations,
    {
        proof {
            use_type_invariant(self);
        }
        self.current_location_idx
    }

    /// Whether the dashboard is to be left.
    pub fn should_quit(&self) -> (r: bool)
        ensures
            r == self@.should_quit,
    {
        self.should_quit
    }

    /// Whether symbols are shown as images.
    pub fn use_images(&self) -> (r: bool)
        ensures
            r == self@.use_images,
    {
        self.use_images
    }

    /// Takes a typed key: `q` leaves the dashboard, `i` turns the images on
    /// or off, and any other key does nothing.
    pub fn on_key(&mut self, key: char)
        ensures
            final(self)@ == typed(old(self)@, key),
    {
        proof {
            use_type_invariant(&*self);
        }
        if key == 'q' {
            self.should_quit = true;
        } else if key == 'i' {
            self.use_images = !self.use_images;
        }
    }

    /// Moves to the tab on the left, if there is one. Returns the tab now
    /// shown, whose location is to be loaded.
    pub fn on_left(&mut self) -> (shown: usize)
        ensures
            final(self)@ == after(old(self)@, Key::Left),
            shown == final(self)@.current_location_idx,
            shown < final(self)@.locations,
    {
        proof {
            use_type_invariant(&*self);
        }
        if self.current_location_idx > 0 {
            self.current_location_idx = self.current_location_idx - 1;
        }
        self.current_location_idx
    }

    /// Moves to the tab on the right, if there is one. Returns the tab now
    /// shown, whose location is to be loaded.
    pub fn on_right(&mut self) -> (shown: usize)
        ensures
            final(self)@ == after(old(self)@, Key::Right),
            shown == final(self)@.current_location_idx,
            shown < final(self)@.locations,
    {
        proof {
            use_type_invariant(&*self);
        }
        if self.current_location_idx + 1 < self.locations {
            self.current_location_idx = self.current_location_idx + 1;
        }
        self.current_location_idx
    }

    /// Takes a key and says what is to be done after it.
    pub fn on_input(&mut self, key: Key) -> (r: Effect)
        ensures
            final(self)@ == after(old(self)@, key),
            r == effect(old(self)@, key),
            r.load matches Some(tab) ==> tab < final(self)@.locations,
    {
        match key {
            Key::Left => {
                let shown: usize = self.on_left();
                Effect { clear: true, load: Some(shown) }
            },
            Key::Right => {
                let shown: usize = self.on_right();
                Effect { clear: true, load: Some(shown) }
            },
            Key::Char(c) => {
                self.on_key(c);
                Effect { clear: true, load: None }
            },
            Key::Other => Effect { clear: false, load: None },
        }
    }
}

} // verus!
