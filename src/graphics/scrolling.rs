//! Support for scrolling sequences of 5×5 images horizontally.
//!
//! A scrolling sequence shows its images one after another, moving one LED
//! column to the left on each tick: it starts with a blank display, each
//! image slides in from the right, and it ends with a blank display once
//! the last image has slid out.
use vstd::prelude::*;

use crate::display::render::{Render, IMAGE_COLS};

verus! {

/// The state of an animation.
pub trait Animate {
    /// Whether the animation has completed.
    spec fn finished(&self) -> bool;

    /// Says whether the animation has completed.
    fn is_finished(&self) -> (r: bool)
        ensures
            r == self.finished(),
    ;

    /// Resets the animation to the beginning.
    fn reset(&mut self)
        ensures
            !final(self).finished(),
    ;

    /// Advances to the next step of the animation; does nothing once the
    /// animation has completed.
    fn tick(&mut self)
        ensures
            old(self).finished() ==> final(self).finished(),
    ;
}

/// The position of a scrolling animation.
pub struct ScrollingState {
    // index of the image being scrolled on, or about to be scrolled on
    index: usize,
    // how many columns it has moved, 0..5
    pixel: usize,
}

impl ScrollingState {
    #[verifier::type_invariant]
    spec fn inv(self) -> bool {
        self.pixel < 5
    }

    /// The index of the image being scrolled on (or about to be).
    pub closed spec fn index(&self) -> nat {
        self.index as nat
    }

    /// How many columns that image has moved on, in `0..5`.
    pub closed spec fn pixel(&self) -> nat {
        self.pixel as nat
    }

    /// Returns the state at the beginning of an animation.
    pub fn new() -> (r: ScrollingState)
        ensures
            r.index() == 0,
            r.pixel() == 0,
    {
        ScrollingState { index: 0, pixel: 0 }
    }

    /// Resets the state to the beginning.
    pub fn reset(&mut self)
        ensures
            final(self).index() == 0,
            final(self).pixel() == 0,
        no_unwind
    {
        *self = ScrollingState { index: 0, pixel: 0 };
    }

    /// Advances the state by one column.
    pub fn tick(&mut self)
        requires
            old(self).pixel() < 4 || old(self).index() < usize::MAX,
        ensures
            old(self).pixel() < 4 ==> final(self).index() == old(self).index() && final(self).pixel() == old(
                self,
            ).pixel() + 1,
            old(self).pixel() >= 4 ==> final(self).index() == old(self).index() + 1 && final(self).pixel() == 0,
        no_unwind
    {
        proof {
            use_type_invariant(&*self);
        }
        if self.pixel == 4 {
            self.pixel = 0;
            self.index = self.index + 1;
        } else {
            self.pixel = self.pixel + 1;
        }
    }

    /// Returns the index of the image being scrolled on.
    pub fn current_index(&self) -> (r: usize)
        ensures
            r == self.index(),
    {
        self.index
    }

    /// Returns how many columns that image has moved on.
    pub fn current_pixel(&self) -> (r: usize)
        ensures
            r == self.pixel(),
            r < 5,
    {
        proof {
            use_type_invariant(self);
        }
        self.pixel
    }
}

impl Default for ScrollingState {
    fn default() -> (r: ScrollingState)
        ensures
            r.index() == 0,
            r.pixel() == 0,
    {
        ScrollingState::new()
    }
}

/// Which image, and which of its columns, LED column `x` shows in a
/// sequence of `length` images at position (`index`, `pixel`): `None` for a
/// blank column (before the first image or after the last).
pub open spec fn scroll_source(index: nat, pixel: nat, length: nat, x: nat) -> Option<(nat, nat)> {
    if index > length {
        None
    } else if x + pixel < IMAGE_COLS {
        if index == 0 {
            None
        } else {
            Some(((index - 1) as nat, x + pixel))
        }
    } else if index == length {
        None
    } else {
        Some((index, (x + pixel - IMAGE_COLS) as nat))
    }
}

/// Returns which image, and which of its columns, LED column `x` shows in a
/// sequence of `length` images at the position `state`.
pub fn scrolled_column(state: &ScrollingState, length: usize, x: usize) -> (r: Option<(usize, usize)>)
    requires
        x < IMAGE_COLS,
    ensures
        r matches Some((i, c)) ==> i < length && c < IMAGE_COLS,
        match r {
            Some((i, c)) => scroll_source(state.index(), state.pixel(), length as nat, x as nat) == Some(
                (i as nat, c as nat),
            ),
            None => scroll_source(state.index(), state.pixel(), length as nat, x as nat) is None,
        },
{
    let index = state.current_index();
    let pixel = state.current_pixel();
    if index > length {
        None
    } else if x + pixel < IMAGE_COLS {
        if index == 0 {
            None
        } else {
            Some((index - 1, x + pixel))
        }
    } else if index == length {
        None
    } else {
        Some((index, x + pixel - IMAGE_COLS))
    }
}

/// A scrolling sequence of images of any type that implements `Render`.
pub struct ScrollingImages<T: Render> {
    images: Vec<T>,
    state: ScrollingState,
}

impl<T: Render> ScrollingImages<T> {
    #[verifier::type_invariant]
    spec fn inv(self) -> bool {
        self.images@.len() < usize::MAX
    }

    /// The images, in order.
    pub closed spec fn images(&self) -> Seq<T> {
        self.images@
    }

    /// The position of the animation.
    pub closed spec fn position(&self) -> (nat, nat) {
        (self.state.index(), self.state.pixel())
    }

    /// Returns an empty sequence.
    pub fn new() -> (r: ScrollingImages<T>)
        ensures
            r.images().len() == 0,
            r.position() == (0nat, 0nat),
    {
        ScrollingImages { images: Vec::new(), state: ScrollingState::new() }
    }

    /// Specifies the images to be displayed, and resets the animation to the
    /// beginning.
    pub fn set_images(&mut self, images: Vec<T>)
        requires
            images@.len() < usize::MAX,
        ensures
            final(self).images() == images@,
            final(self).position() == (0nat, 0nat),
    {
        let state = ScrollingState::new();
        *self = ScrollingImages { images, state };
    }

    /// The number of images.
    pub fn length(&self) -> (r: usize)
        ensures
            r == self.images().len(),
    {
        self.images.len()
    }
}

impl<T: Render> Animate for ScrollingImages<T> {
    /// Finished once the last image has scrolled off.
    open spec fn finished(&self) -> bool {
        self.position().0 > self.images().len()
    }

    fn is_finished(&self) -> (r: bool)
        ensures
            r == (self.position().0 > self.images().len()),
    {
        self.state.current_index() > self.images.len()
    }

    fn reset(&mut self)
        ensures
            final(self).images() == old(self).images(),
            final(self).position() == (0nat, 0nat),
    {
        proof {
            use_type_invariant(&*self);
        }
        self.state.reset();
    }

    fn tick(&mut self)
        ensures
            final(self).images() == old(self).images(),
            ({
                let (index, pixel) = old(self).position();
                if index > old(self).images().len() {
                    final(self).position() == old(self).position()
                } else if pixel < 4 {
                    final(self).position() == (index, pixel + 1)
                } else {
                    final(self).position() == (index + 1, 0nat)
                }
            }),
    {
        proof {
            use_type_invariant(&*self);
            use_type_invariant(&self.state);
        }
        if !self.is_finished() {
            self.state.tick();
        }
    }
}

impl<T: Render> Render for ScrollingImages<T> {
    /// The brightness of the LED in the animation's current position.
    closed spec fn brightness(&self, x: usize, y: usize) -> u8 {
        match scroll_source(self.state.index(), self.state.pixel(), self.images@.len(), x as nat) {
            Some((i, c)) => self.images@[i as int].brightness(c as usize, y),
            None => 0,
        }
    }

    fn brightness_at(&self, x: usize, y: usize) -> (r: u8) {
        match scrolled_column(&self.state, self.images.len(), x) {
            Some((index, col)) => self.images[index].brightness_at(col, y),
            None => 0,
        }
    }
}

} // verus!
