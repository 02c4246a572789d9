//! A screen that renders a closed set of widgets.
//!
//! Every widget implements [`Draw`]; a [`Screen`] keeps them in order and
//! draws each in turn. The widget set is a closed sum ([`Widget`]), so a
//! single collection can hold buttons and select boxes side by side.

use vstd::prelude::*;

verus! {

/// A drawable component.
pub trait Draw {
    /// Render this component.
    fn draw(&self);
}

/// A push button with a label.
pub struct Button {
    pub width: u32,
    pub height: u32,
    pub label: String,
}

/// A drop-down box offering a list of options.
pub struct SelectBox {
    pub width: u32,
    pub height: u32,
    pub options: Vec<String>,
}

/// The closed set of widgets a screen can hold.
pub enum Widget {
    Button(Button),
    SelectBox(SelectBox),
}

impl Draw for Button {
    fn draw(&self) {
    }
}

impl Draw for SelectBox {
    fn draw(&self) {
    }
}

impl Draw for Widget {
    fn draw(&self) {
        match self {
            Widget::Button(button) => button.draw(),
            Widget::SelectBox(select_box) => select_box.draw(),
        }
    }
}

/// An ordered collection of widgets, drawn together.
pub struct Screen {
    pub components: Vec<Widget>,
}

impl Screen {
    /// Draw every component, in the order they were added.
    pub fn draw_all(&self) {
        let mut i: usize = 0;
        while i < self.components.len()
            decreases self.components.len() - i,
        {
            self.components[i].draw();
            i = i + 1;
        }
    }

    /// Append a component; all earlier components keep their places.
    pub fn add(&mut self, comp: Widget)
        ensures
            final(self).components@ == old(self).components@.push(comp),
    {
        self.components.push(comp);
    }
}

/// Build a screen holding one button and one select box, and draw it.
pub fn demo() {
    let mut screen = Screen { components: Vec::new() };
    let button = Widget::Button(Button {
        width: 32,
        height: 23,
        label: "OK".to_owned(),
    });
    let select_box = Widget::SelectBox(SelectBox {
        width: 25,
        height: 32,
        options: vec!["sunny".to_owned(), "cloudy".to_owned()],
    });
    screen.add(button);
    screen.add(select_box);
    assert(screen.components@.len() == 2);
    screen.draw_all();
}

} // verus!
