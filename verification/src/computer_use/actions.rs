//! Actions on the elements of a snapshot.

use crate::computer_use::uia::{element_for_id, Registry};
use crate::outside;
use crate::text;
use vstd::prelude::*;

verus! {

pub const WINDOWS_ONLY: &'static str = "computer use is windows-only in this build";

/// The error for an id that no element of the last snapshot has.
pub open spec fn unknown_element(id: Seq<char>) -> Seq<char> {
    "unknown element id "@ + outside::debug_text(id) + " \u{2014} did you snapshot first?"@
}

/// The element that an action is meant for.
pub fn target_of(registry: &Registry, element_id: &str) -> (r: Result<usize, String>)
    ensures
        match r {
            Ok(h) => registry.element(element_id@) == Some(h),
            Err(e) => registry.element(element_id@) is None && e@ == unknown_element(element_id@),
        },
{
    match element_for_id(registry, element_id) {
        Some(h) => Ok(h),
        None => {
            let mut e = "unknown element id ".to_owned();
            e.append(&outside::debug_string(element_id));
            e.append(" \u{2014} did you snapshot first?");
            Err(e)
        },
    }
}

/// A click, where there is no desktop to click on.
pub fn click(element_id: &str) -> (r: Result<(), String>)
    ensures
        r matches Err(e) && e@ == WINDOWS_ONLY@,
{
    Err(WINDOWS_ONLY.to_owned())
}

/// Typing, where there is no desktop to type into.
pub fn type_text(element_id: &str, text: &str) -> (r: Result<(), String>)
    ensures
        r matches Err(e) && e@ == WINDOWS_ONLY@,
{
    Err(WINDOWS_ONLY.to_owned())
}

/// Bringing a window to the front, where there is no desktop.
pub fn focus_window(title_substr: &str) -> (r: Result<(), String>)
    ensures
        r matches Err(e) && e@ == WINDOWS_ONLY@,
{
    Err(WINDOWS_ONLY.to_owned())
}

/// How an element is clicked on.
#[derive(Clone, Copy, Debug, PartialEq, Eq, Structural)]
pub enum Press {
    /// What it is there for is done.
    Invoke,
    /// The pointer is moved there and clicks.
    Point,
}

/// How an element is clicked on: one that can be invoked is invoked, which is
/// surer than the pointer.
pub fn press_of(can_invoke: bool) -> (r: Press)
    ensures
        r == (if can_invoke {
            Press::Invoke
        } else {
            Press::Point
        }),
{
    if can_invoke {
        Press::Invoke
    } else {
        Press::Point
    }
}

/// What a click came to.
pub fn pressed(how: Press, done: Result<(), String>) -> (r: Result<(), String>)
    ensures
        match done {
            Ok(_) => r is Ok,
            Err(e) => r matches Err(m) && m@ == (match how {
                Press::Invoke => "invoke failed: "@,
                Press::Point => "click failed: "@,
            }) + e@,
        },
{
    match done {
        Ok(_) => Ok(()),
        Err(e) => {
            let mut m = (match how {
                Press::Invoke => "invoke failed: ",
                Press::Point => "click failed: ",
            }).to_owned();
            m.append(&e);
            Err(m)
        },
    }
}

/// What typing with the keyboard came to, which is done only where a value could
/// not be put into the element.
pub fn typed(done: Result<(), String>) -> (r: Result<(), String>)
    ensures
        match done {
            Ok(_) => r is Ok,
            Err(e) => r matches Err(m) && m@ == "type failed: "@ + e@,
        },
{
    match done {
        Ok(_) => Ok(()),
        Err(e) => {
            let mut m = "type failed: ".to_owned();
            m.append(&e);
            Err(m)
        },
    }
}

/// A title holds what is looked for, in any case.
pub open spec fn title_matches(title: Seq<char>, query: Seq<char>) -> bool {
    text::occurs(text::lower(title), text::lower(query))
}

/// The error for a title that no window has.
pub open spec fn no_window(query: Seq<char>) -> Seq<char> {
    "no window matching "@ + outside::debug_text(query)
}

/// The first of the windows whose title holds what is looked for.
pub fn pick_window(titles: &Vec<String>, title_substr: &str) -> (r: Result<usize, String>)
    ensures
        match r {
            Ok(i) => {
                &&& i < titles@.len()
                &&& title_matches(titles@[i as int]@, title_substr@)
                &&& forall|j: int|
                    0 <= j < i ==> !title_matches(#[trigger] titles@[j]@, title_substr@)
            },
            Err(e) => {
                &&& forall|j: int|
                    0 <= j < titles@.len() ==> !title_matches(
                        #[trigger] titles@[j]@,
                        title_substr@,
                    )
                &&& e@ == no_window(title_substr@)
            },
        },
{
    let needle = text::to_lower(title_substr);
    for i in 0..titles.len()
        invariant
            needle@ == text::lower(title_substr@),
            forall|j: int| 0 <= j < i ==> !title_matches(#[trigger] titles@[j]@, title_substr@),
    {
        if text::contains(&text::to_lower(&titles[i]), &needle) {
            return Ok(i);
        }
    }
    let mut e = "no window matching ".to_owned();
    e.append(&outside::debug_string(title_substr));
    Err(e)
}

} // verus!
