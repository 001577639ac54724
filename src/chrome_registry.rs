//! The per-window chrome table: what install records for a window handle,
//! and the ordered teardown that uninstall hands back.
use std::collections::HashMap;
use vstd::prelude::*;

verus! {

broadcast use vstd::std_specs::hash::group_hash_axioms;

/// How the chrome is installed on a window.
#[derive(Clone, Copy, PartialEq, Eq, Structural, Debug)]
pub struct Options {
    /// Height of the draggable caption band at the top of the client area.
    pub caption_height_px: i32,
    /// Ask for a dark caption where the system supports it.
    pub enable_dark_caption: bool,
    /// System backdrop kind (1 Mica, 2 Acrylic, 3 tabbed), or none.
    pub backdrop: Option<i32>,
}

impl Options {
    /// The usual options: a dark caption and the Mica backdrop, with the
    /// given caption height.
    pub fn with_caption_height(caption_height_px: i32) -> (o: Options)
        ensures
            o.caption_height_px == caption_height_px,
            o.enable_dark_caption,
            o.backdrop == Some(1i32),
    {
        Options { caption_height_px, enable_dark_caption: true, backdrop: Some(1) }
    }
}

/// A window attribute for the desktop window manager to set.
#[derive(Clone, Copy, PartialEq, Eq, Structural, Debug)]
pub struct DwmAttribute {
    pub attribute: u32,
    pub value: i32,
}

/// The attribute that asks for a dark caption.
pub const DWMWA_USE_IMMERSIVE_DARK_MODE: u32 = 20;

/// The attribute that selects the system backdrop.
pub const DWMWA_SYSTEMBACKDROP_TYPE: u32 = 38;

/// The attributes that `o` asks for, in the order they are set: the dark
/// caption where enabled, then the backdrop where one is given.
pub open spec fn dwm_attributes_of(o: Options) -> Seq<DwmAttribute> {
    let dark = if o.enable_dark_caption {
        seq![DwmAttribute { attribute: DWMWA_USE_IMMERSIVE_DARK_MODE, value: 1 }]
    } else {
        Seq::empty()
    };
    match o.backdrop {
        Some(kind) => dark.push(DwmAttribute { attribute: DWMWA_SYSTEMBACKDROP_TYPE, value: kind }),
        None => dark,
    }
}

impl Options {
    /// The window attributes to set before the chrome is installed.
    pub fn dwm_attributes(&self) -> (r: Vec<DwmAttribute>)
        ensures
            r@ == dwm_attributes_of(*self),
    {
        let mut r: Vec<DwmAttribute> = Vec::new();
        if self.enable_dark_caption {
            r.push(DwmAttribute { attribute: DWMWA_USE_IMMERSIVE_DARK_MODE, value: 1 });
        }
        if let Some(kind) = self.backdrop {
            r.push(DwmAttribute { attribute: DWMWA_SYSTEMBACKDROP_TYPE, value: kind });
        }
        proof {
            assert(r@ =~= dwm_attributes_of(*self));
        }
        r
    }
}

/// Held by the owner of a window while its chrome is installed; the window
/// handle is what uninstall is keyed by.
pub struct HybridChromeHandle {
    hwnd: isize,
}

impl HybridChromeHandle {
    pub closed spec fn view(&self) -> isize {
        self.hwnd
    }

    pub fn new(hwnd: isize) -> (h: HybridChromeHandle)
        ensures
            h@ == hwnd,
    {
        HybridChromeHandle { hwnd }
    }

    pub fn hwnd(&self) -> (h: isize)
        ensures
            h == self@,
    {
        self.hwnd
    }
}

/// What install records for a window.
#[derive(Clone, Copy, PartialEq, Eq, Structural, Debug)]
pub struct ChromeState {
    /// The window procedure that was installed before ours.
    pub prev_wndproc: isize,
    pub caption_height_px: i32,
    /// The invisible helper window around the owner; zero for none.
    pub helper_hwnd: isize,
}

/// One step of taking the chrome off a window, in the order given.
#[derive(Clone, Copy, PartialEq, Eq, Structural, Debug)]
pub enum TeardownStep {
    /// Put `wndproc` back as the window procedure of `hwnd`.
    RestoreWndProc { hwnd: isize, wndproc: isize },
    /// Destroy the window `hwnd`.
    DestroyWindow { hwnd: isize },
}

/// The steps that take the chrome off `hwnd`: first the window procedure
/// is restored, then the helper window, if any, is destroyed. Nothing for a
/// window that has no chrome.
pub open spec fn teardown_steps(m: Map<isize, ChromeState>, hwnd: isize) -> Seq<TeardownStep> {
    if m.contains_key(hwnd) {
        let st = m[hwnd];
        let restore = TeardownStep::RestoreWndProc { hwnd, wndproc: st.prev_wndproc };
        if st.helper_hwnd != 0 {
            seq![restore, TeardownStep::DestroyWindow { hwnd: st.helper_hwnd }]
        } else {
            seq![restore]
        }
    } else {
        Seq::empty()
    }
}

/// Chrome state per window, keyed by window handle.
pub struct ChromeRegistry {
    states: HashMap<isize, ChromeState>,
}

/// An empty chrome table, to be held for the life of the process.
pub fn state_map() -> (r: ChromeRegistry)
    ensures
        r@ == Map::<isize, ChromeState>::empty(),
{
    ChromeRegistry { states: HashMap::new() }
}

impl ChromeRegistry {
    pub closed spec fn view(&self) -> Map<isize, ChromeState> {
        self.states@
    }

    /// Records the chrome installed on `hwnd`, replacing an earlier record.
    pub fn install(&mut self, hwnd: isize, state: ChromeState)
        ensures
            final(self)@ == old(self)@.insert(hwnd, state),
    {
        self.states.insert(hwnd, state);
    }

    /// Records the chrome just installed on `hwnd`, whose window procedure
    /// was replaced and handed back as `state.prev_wndproc`. Zero there means
    /// the replacement failed: nothing is recorded, and the steps returned
    /// destroy the helper that was made for it.
    pub fn record_install(&mut self, hwnd: isize, state: ChromeState) -> (r: Result<(), Vec<TeardownStep>>)
        ensures
            state.prev_wndproc != 0 ==> r is Ok && final(self)@ == old(self)@.insert(hwnd, state),
            state.prev_wndproc == 0 ==> r is Err && final(self)@ == old(self)@ && r->Err_0@ == (
            if state.helper_hwnd != 0 {
                seq![TeardownStep::DestroyWindow { hwnd: state.helper_hwnd }]
            } else {
                Seq::empty()
            }),
    {
        if state.prev_wndproc == 0 {
            let mut steps: Vec<TeardownStep> = Vec::new();
            if state.helper_hwnd != 0 {
                steps.push(TeardownStep::DestroyWindow { hwnd: state.helper_hwnd });
            }
            proof {
                assert(steps@ =~= (if state.helper_hwnd != 0 {
                    seq![TeardownStep::DestroyWindow { hwnd: state.helper_hwnd }]
                } else {
                    Seq::empty()
                }));
            }
            return Err(steps);
        }
        self.states.insert(hwnd, state);
        Ok(())
    }

    /// The chrome recorded for `hwnd`, if any.
    pub fn lookup(&self, hwnd: isize) -> (r: Option<ChromeState>)
        ensures
            r == (if self@.contains_key(hwnd) {
                Some(self@[hwnd])
            } else {
                None
            }),
    {
        match self.states.get(&hwnd) {
            Some(st) => Some(*st),
            None => None,
        }
    }

    /// Removes the record of `hwnd` and returns the steps that take its
    /// chrome off: the window procedure restored, then the helper destroyed.
    /// For a window without a record nothing changes and no step is returned,
    /// so a second call does nothing.
    pub fn uninstall(&mut self, hwnd: isize) -> (steps: Vec<TeardownStep>)
        ensures
            final(self)@ == old(self)@.remove(hwnd),
            steps@ == teardown_steps(old(self)@, hwnd),
    {
        let mut steps: Vec<TeardownStep> = Vec::new();
        match self.states.remove(&hwnd) {
            Some(st) => {
                steps.push(TeardownStep::RestoreWndProc { hwnd, wndproc: st.prev_wndproc });
                if st.helper_hwnd != 0 {
                    steps.push(TeardownStep::DestroyWindow { hwnd: st.helper_hwnd });
                }
            },
            None => {},
        }
        proof {
            assert(steps@ =~= teardown_steps(old(self)@, hwnd));
        }
        steps
    }
}

/// Installing the chrome on a window and uninstalling it restores exactly
/// the window procedure that install recorded, before destroying exactly the
/// helper it recorded; afterwards the table holds no record of the window
/// and is otherwise as before, and a second uninstall does nothing.
pub proof fn lemma_install_uninstall_round_trip(
    m: Map<isize, ChromeState>,
    hwnd: isize,
    state: ChromeState,
)
    ensures
        teardown_steps(m.insert(hwnd, state), hwnd)[0] == (TeardownStep::RestoreWndProc {
            hwnd,
            wndproc: state.prev_wndproc,
        }),
        state.helper_hwnd != 0 ==> teardown_steps(m.insert(hwnd, state), hwnd) == seq![
            TeardownStep::RestoreWndProc { hwnd, wndproc: state.prev_wndproc },
            TeardownStep::DestroyWindow { hwnd: state.helper_hwnd },
        ],
        !m.insert(hwnd, state).remove(hwnd).contains_key(hwnd),
        m.insert(hwnd, state).remove(hwnd) == m.remove(hwnd),
        teardown_steps(m.insert(hwnd, state).remove(hwnd), hwnd).len() == 0,
        m.insert(hwnd, state).remove(hwnd).remove(hwnd) == m.insert(hwnd, state).remove(hwnd),
{
    assert(m.insert(hwnd, state).remove(hwnd) =~= m.remove(hwnd));
    assert(m.insert(hwnd, state).remove(hwnd).remove(hwnd) =~= m.insert(hwnd, state).remove(hwnd));
}

} // verus!
