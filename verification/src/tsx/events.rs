//! The events that callbacks are attached to, and their handler props.

use vstd::prelude::*;
use crate::text::{owned, str_eq};

verus! {

/// An event of an element.
#[derive(Debug, Clone, Copy, PartialEq, Eq, Structural)]
pub enum ElementEvent {
    Click,
    Hover,
    Focus,
    Change,
    Submit,
    HoverStart,
    HoverEnd,
    Drag,
    DragStart,
    DragEnd,
    AnimationStart,
    AnimationComplete,
    ViewportEnter,
    ViewportLeave,
    Tap,
    TapStart,
    TapCancel,
    Pan,
    PanStart,
    PanEnd,
    MouseEnter,
    MouseLeave,
    KeyDown,
    KeyUp,
    TouchStart,
    TouchEnd,
    TouchMove,
    TouchCancel,
    Wheel,
}

/// The name of the prop that handles an event.
pub open spec fn handler_name(e: ElementEvent) -> Seq<char> {
    match e {
        ElementEvent::Click => "onClick"@,
        ElementEvent::Hover => "onHover"@,
        ElementEvent::Focus => "onFocus"@,
        ElementEvent::Change => "onChange"@,
        ElementEvent::Submit => "onSubmit"@,
        ElementEvent::HoverStart => "onHoverStart"@,
        ElementEvent::HoverEnd => "onHoverEnd"@,
        ElementEvent::Drag => "onDrag"@,
        ElementEvent::DragStart => "onDragStart"@,
        ElementEvent::DragEnd => "onDragEnd"@,
        ElementEvent::AnimationStart => "onAnimationStart"@,
        ElementEvent::AnimationComplete => "onAnimationComplete"@,
        ElementEvent::ViewportEnter => "onViewportEnter"@,
        ElementEvent::ViewportLeave => "onViewportLeave"@,
        ElementEvent::Tap => "onTap"@,
        ElementEvent::TapStart => "onTapStart"@,
        ElementEvent::TapCancel => "onTapCancel"@,
        ElementEvent::Pan => "onPan"@,
        ElementEvent::PanStart => "onPanStart"@,
        ElementEvent::PanEnd => "onPanEnd"@,
        ElementEvent::MouseEnter => "onMouseEnter"@,
        ElementEvent::MouseLeave => "onMouseLeave"@,
        ElementEvent::KeyDown => "onKeyDown"@,
        ElementEvent::KeyUp => "onKeyUp"@,
        ElementEvent::TouchStart => "onTouchStart"@,
        ElementEvent::TouchEnd => "onTouchEnd"@,
        ElementEvent::TouchMove => "onTouchMove"@,
        ElementEvent::TouchCancel => "onTouchCancel"@,
        ElementEvent::Wheel => "onWheel"@,
    }
}

impl ElementEvent {
    /// The name of the prop that handles the event.
    pub fn as_str(&self) -> (r: &'static str)
        ensures
            r@ == handler_name(*self),
    {
        match self {
            ElementEvent::Click => "onClick",
            ElementEvent::Hover => "onHover",
            ElementEvent::Focus => "onFocus",
            ElementEvent::Change => "onChange",
            ElementEvent::Submit => "onSubmit",
            ElementEvent::HoverStart => "onHoverStart",
            ElementEvent::HoverEnd => "onHoverEnd",
            ElementEvent::Drag => "onDrag",
            ElementEvent::DragStart => "onDragStart",
            ElementEvent::DragEnd => "onDragEnd",
            ElementEvent::AnimationStart => "onAnimationStart",
            ElementEvent::AnimationComplete => "onAnimationComplete",
            ElementEvent::ViewportEnter => "onViewportEnter",
            ElementEvent::ViewportLeave => "onViewportLeave",
            ElementEvent::Tap => "onTap",
            ElementEvent::TapStart => "onTapStart",
            ElementEvent::TapCancel => "onTapCancel",
            ElementEvent::Pan => "onPan",
            ElementEvent::PanStart => "onPanStart",
            ElementEvent::PanEnd => "onPanEnd",
            ElementEvent::MouseEnter => "onMouseEnter",
            ElementEvent::MouseLeave => "onMouseLeave",
            ElementEvent::KeyDown => "onKeyDown",
            ElementEvent::KeyUp => "onKeyUp",
            ElementEvent::TouchStart => "onTouchStart",
            ElementEvent::TouchEnd => "onTouchEnd",
            ElementEvent::TouchMove => "onTouchMove",
            ElementEvent::TouchCancel => "onTouchCancel",
            ElementEvent::Wheel => "onWheel",
        }
    }

    /// The name of the prop that handles the event, owned.
    pub fn to_handler_name(&self) -> (r: String)
        ensures
            r@ == handler_name(*self),
    {
        owned(self.as_str())
    }

    /// The event whose handler prop is named `name`.
    pub fn from_handler_name(name: &str) -> (r: Option<ElementEvent>)
        ensures
            match r {
                Some(e) => handler_name(e) == name@,
                None => forall|e: ElementEvent| handler_name(e) != name@,
            },
    {
        let all = [
            ElementEvent::Click, ElementEvent::Hover, ElementEvent::Focus, ElementEvent::Change, ElementEvent::Submit, ElementEvent::HoverStart,
            ElementEvent::HoverEnd, ElementEvent::Drag, ElementEvent::DragStart, ElementEvent::DragEnd, ElementEvent::AnimationStart,
            ElementEvent::AnimationComplete, ElementEvent::ViewportEnter, ElementEvent::ViewportLeave, ElementEvent::Tap, ElementEvent::TapStart,
            ElementEvent::TapCancel, ElementEvent::Pan, ElementEvent::PanStart, ElementEvent::PanEnd, ElementEvent::MouseEnter, ElementEvent::MouseLeave,
            ElementEvent::KeyDown, ElementEvent::KeyUp, ElementEvent::TouchStart, ElementEvent::TouchEnd, ElementEvent::TouchMove,
            ElementEvent::TouchCancel, ElementEvent::Wheel,
        ];
        let mut i: usize = 0;
        while i < all.len()
            invariant
                i <= all@.len(),
                forall|k: int| 0 <= k < i ==> handler_name(#[trigger] all@[k]) != name@,
                all@ == seq![
                    ElementEvent::Click, ElementEvent::Hover, ElementEvent::Focus, ElementEvent::Change, ElementEvent::Submit, ElementEvent::HoverStart,
                    ElementEvent::HoverEnd, ElementEvent::Drag, ElementEvent::DragStart, ElementEvent::DragEnd, ElementEvent::AnimationStart,
                    ElementEvent::AnimationComplete, ElementEvent::ViewportEnter, ElementEvent::ViewportLeave, ElementEvent::Tap, ElementEvent::TapStart,
                    ElementEvent::TapCancel, ElementEvent::Pan, ElementEvent::PanStart, ElementEvent::PanEnd, ElementEvent::MouseEnter, ElementEvent::MouseLeave,
                    ElementEvent::KeyDown, ElementEvent::KeyUp, ElementEvent::TouchStart, ElementEvent::TouchEnd, ElementEvent::TouchMove,
                    ElementEvent::TouchCancel, ElementEvent::Wheel,
                ],
            decreases all@.len() - i,
        {
            if str_eq(all[i].as_str(), name) {
                return Some(all[i]);
            }
            i += 1;
        }
        assert forall|e: ElementEvent| handler_name(e) != name@ by {
            let k: int = match e {
                ElementEvent::Click => 0,
                ElementEvent::Hover => 1,
                ElementEvent::Focus => 2,
                ElementEvent::Change => 3,
                ElementEvent::Submit => 4,
                ElementEvent::HoverStart => 5,
                ElementEvent::HoverEnd => 6,
                ElementEvent::Drag => 7,
                ElementEvent::DragStart => 8,
                ElementEvent::DragEnd => 9,
                ElementEvent::AnimationStart => 10,
                ElementEvent::AnimationComplete => 11,
                ElementEvent::ViewportEnter => 12,
                ElementEvent::ViewportLeave => 13,
                ElementEvent::Tap => 14,
                ElementEvent::TapStart => 15,
                ElementEvent::TapCancel => 16,
                ElementEvent::Pan => 17,
                ElementEvent::PanStart => 18,
                ElementEvent::PanEnd => 19,
                ElementEvent::MouseEnter => 20,
                ElementEvent::MouseLeave => 21,
                ElementEvent::KeyDown => 22,
                ElementEvent::KeyUp => 23,
                ElementEvent::TouchStart => 24,
                ElementEvent::TouchEnd => 25,
                ElementEvent::TouchMove => 26,
                ElementEvent::TouchCancel => 27,
                ElementEvent::Wheel => 28,
            };
            assert(all@[k] == e);
        }
        None
    }
}

/// The options of a toast.
#[derive(Debug, Clone)]
pub struct ShowToastOptions {
    pub message: String,
}

/// What a callback does.
#[derive(Debug, Clone)]
pub enum Action {
    /// Shows a toast notification.
    Toast(ShowToastOptions),
}

/// An action run on an event.
#[derive(Debug, Clone)]
pub struct Callback {
    pub trigger: ElementEvent,
    pub action: Action,
}

impl Callback {
    /// The callback that runs `action` on `trigger`.
    pub fn new(trigger: ElementEvent, action: Action) -> (r: Callback)
        ensures
            r.trigger == trigger,
            r.action == action,
    {
        Callback { trigger, action }
    }
}

} // verus!
