//! The component kinds: what an entity looks like, and how healthy it is.
use vstd::prelude::*;
use crate::geometry::{BoundingBox2D, Vector2};

verus! {

/// An RGBA color.
#[derive(Clone, Copy, Debug, PartialEq, Eq, Structural)]
pub struct Color {
    pub r: u8,
    pub g: u8,
    pub b: u8,
    pub a: u8,
}

impl Color {
    pub fn new(r: u8, g: u8, b: u8, a: u8) -> (c: Color)
        ensures
            c == (Color { r, g, b, a }),
    {
        Color { r, g, b, a }
    }

    pub open spec fn white_spec() -> Color {
        Color { r: 255, g: 255, b: 255, a: 255 }
    }

    pub open spec fn red_spec() -> Color {
        Color { r: 230, g: 41, b: 55, a: 255 }
    }

    pub open spec fn green_spec() -> Color {
        Color { r: 0, g: 228, b: 48, a: 255 }
    }

    pub fn white() -> (c: Color)
        ensures
            c == Color::white_spec(),
    {
        Color::new(255, 255, 255, 255)
    }

    pub fn red() -> (c: Color)
        ensures
            c == Color::red_spec(),
    {
        Color::new(230, 41, 55, 255)
    }

    pub fn green() -> (c: Color)
        ensures
            c == Color::green_spec(),
    {
        Color::new(0, 228, 48, 255)
    }

    pub fn yellow() -> (c: Color)
        ensures
            c == (Color { r: 253, g: 249, b: 0, a: 255 }),
    {
        Color::new(253, 249, 0, 255)
    }

    pub fn black() -> (c: Color)
        ensures
            c == (Color { r: 0, g: 0, b: 0, a: 255 }),
    {
        Color::new(0, 0, 0, 255)
    }
}

/// What an entity looks like: a name, where it is, its tint, and whether it
/// is shown.
#[derive(Debug)]
pub struct Base2D {
    pub name: String,
    pub bounds: BoundingBox2D,
    pub tint: Color,
    pub visible: bool,
}

impl Base2D {
    /// An unnamed, visible, white entity with origin `pos` and size `size`.
    pub fn new(pos: Vector2, size: Vector2) -> (r: Base2D)
        requires
            i32::MIN <= pos.x,
            i32::MIN <= pos.y,
            0 <= size.x <= i32::MAX,
            0 <= size.y <= i32::MAX,
            pos.x + size.x <= i32::MAX,
            pos.y + size.y <= i32::MAX,
        ensures
            r.name@ == "Unnamed"@,
            r.bounds == BoundingBox2D::from_origin_size(pos, size),
            r.bounds.wf(),
            r.tint == Color::white_spec(),
            r.visible,
    {
        Base2D {
            name: String::from_str("Unnamed"),
            bounds: BoundingBox2D::new_v(pos, size),
            tint: Color::white(),
            visible: true,
        }
    }
}

/// How a health bar is shown.
#[derive(Clone, Copy, Debug, PartialEq, Eq, Structural)]
pub enum UIBarStyle {
    Hidden,
    Inline,
    Boss,
}

/// Current and maximum health; the current value never exceeds the maximum.
#[derive(Clone, Copy, Debug)]
pub struct Health {
    max_health: u16,
    health: u16,
    bar_style: UIBarStyle,
}

impl Health {
    #[verifier::type_invariant]
    spec fn inv(self) -> bool {
        self.health <= self.max_health
    }

    pub closed spec fn current(self) -> u16 {
        self.health
    }

    pub closed spec fn maximum(self) -> u16 {
        self.max_health
    }

    pub closed spec fn style(self) -> UIBarStyle {
        self.bar_style
    }

    /// Full health `health` out of `health`, shown inline.
    pub fn new(health: u16) -> (r: Health)
        ensures
            r.current() == health,
            r.maximum() == health,
            r.style() == UIBarStyle::Inline,
    {
        Health { max_health: health, health, bar_style: UIBarStyle::Inline }
    }

    /// Current health; never more than the maximum, whatever damage was taken.
    pub fn health(&self) -> (r: u16)
        ensures
            r == self.current(),
            r <= self.maximum(),
    {
        proof {
            use_type_invariant(self);
        }
        self.health
    }

    pub fn max_health(&self) -> (r: u16)
        ensures
            r == self.maximum(),
    {
        self.max_health
    }

    pub fn bar_style(&self) -> (r: UIBarStyle)
        ensures
            r == self.style(),
    {
        self.bar_style
    }

    pub fn set_bar_style(&mut self, style: UIBarStyle)
        ensures
            final(self).style() == style,
            final(self).current() == old(self).current(),
            final(self).maximum() == old(self).maximum(),
    {
        proof {
            use_type_invariant(&*self);
        }
        self.bar_style = style;
    }

    /// Lowers current health by `amount`, stopping at zero.
    pub fn take_damage(&mut self, amount: u16)
        ensures
            final(self).current() == (if amount < old(self).current() {
                old(self).current() - amount
            } else {
                0
            }),
            final(self).maximum() == old(self).maximum(),
            final(self).style() == old(self).style(),
    {
        proof {
            use_type_invariant(&*self);
        }
        if amount < self.health {
            self.health = self.health - amount;
        } else {
            self.health = 0;
        }
    }
}

} // verus!
