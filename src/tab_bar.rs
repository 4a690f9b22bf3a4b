use vstd::prelude::*;

use vstd::std_specs::cmp::PartialEqSpec;

use crate::color::Color;

verus! {

/// The height of a tab bar unless set otherwise, in points.
pub const DEFAULT_TAB_BAR_HEIGHT: u32 = 48;

/// One tab: the value it selects, its label and its icon glyph.
pub struct TabBarItem<T> {
    pub value: T,
    pub label: String,
    pub icon: String,
}

impl<T: PartialEq + Clone> TabBarItem<T> {
    pub fn new(value: T, label: String, icon: String) -> (item: TabBarItem<T>)
        ensures
            item.value == value,
            item.label == label,
            item.icon == icon,
    {
        TabBarItem { label, icon, value }
    }
}

/// A strip of tabs of equal width. The caller keeps the selected value between frames; the
/// tab whose value equals it is shown active.
pub struct TabBar<T> {
    pub tabs: Vec<TabBarItem<T>>,
    /// The height of the strip, in points.
    pub height: u32,
}

pub open spec fn active_color() -> Color {
    Color { r: 0, g: 122, b: 255, a: 255 }
}

pub open spec fn idle_color() -> Color {
    Color { r: 142, g: 142, b: 147, a: 255 }
}

impl<T: PartialEq + Clone> TabBar<T> {
    pub fn new(tabs: Vec<TabBarItem<T>>) -> (bar: TabBar<T>)
        ensures
            bar.tabs == tabs,
            bar.height == DEFAULT_TAB_BAR_HEIGHT,
    {
        TabBar { tabs, height: DEFAULT_TAB_BAR_HEIGHT }
    }

    pub fn height(self, height: u32) -> (bar: TabBar<T>)
        ensures
            bar.tabs == self.tabs,
            bar.height == height,
    {
        TabBar { tabs: self.tabs, height }
    }

    /// Handles a click on the tab at an index, if any: selects that tab's value. Returns
    /// whether the selection was set, and so a redraw is due.
    pub fn click(&self, clicked: Option<usize>, selected: &mut T) -> (redraw: bool)
        ensures
            redraw == (clicked is Some && clicked->0 < self.tabs@.len()),
            redraw ==> cloned(self.tabs@[clicked->0 as int].value, *final(selected)),
            !redraw ==> *final(selected) == *old(selected),
    {
        match clicked {
            Some(i) => {
                if i < self.tabs.len() {
                    *selected = self.tabs[i].value.clone();
                    true
                } else {
                    false
                }
            },
            None => false,
        }
    }

    /// Whether the tab at `index` is the selected one.
    pub fn is_active(&self, index: usize, selected: &T) -> (active: bool)
        requires
            index < self.tabs@.len(),
        ensures
            T::obeys_eq_spec() ==> active == self.tabs@[index as int].value.eq_spec(selected),
    {
        self.tabs[index].value == *selected
    }

    /// The color of the icon and label of the tab at `index`: blue when active, grey when not.
    pub fn label_color(&self, index: usize, selected: &T) -> (c: Color)
        requires
            index < self.tabs@.len(),
        ensures
            T::obeys_eq_spec() ==> c == (if self.tabs@[index as int].value.eq_spec(selected) {
                active_color()
            } else {
                idle_color()
            }),
    {
        if self.is_active(index, selected) {
            Color::from_rgb(0, 122, 255)
        } else {
            Color::from_rgb(142, 142, 147)
        }
    }
}

} // verus!
