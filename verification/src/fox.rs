//! The decisions of the random fox picture screen: which keys fetch or
//! leave, the loading spinner, where the picture is, and which terminal
//! graphics protocol the user picked.

use vstd::prelude::*;
use crate::text::{trim, trim_string, chars_of, sub_chars, string_of, push_chars};

verus! {

/// A terminal graphics protocol that the user can pick.
#[derive(Debug, Clone, Copy, PartialEq, Eq, Structural)]
pub enum ProtocolChoice {
    Kitty,
    Iterm2,
    Sixel,
    Halfblocks,
}

/// The protocol picked by a line of input: `2` to `5` after trimming white
/// space pick Kitty, iTerm2, Sixel and half blocks; anything else picks none
/// (the protocol is then detected).
pub fn protocol_choice(input: &str) -> (r: Option<ProtocolChoice>)
    ensures
        r == (if trim(input@) == "2"@ {
            Some(ProtocolChoice::Kitty)
        } else if trim(input@) == "3"@ {
            Some(ProtocolChoice::Iterm2)
        } else if trim(input@) == "4"@ {
            Some(ProtocolChoice::Sixel)
        } else if trim(input@) == "5"@ {
            Some(ProtocolChoice::Halfblocks)
        } else {
            None::<ProtocolChoice>
        }),
{
    let t = trim_string(input);
    let v = chars_of(t.as_str());
    proof {
        reveal_strlit("2");
        reveal_strlit("3");
        reveal_strlit("4");
        reveal_strlit("5");
    }
    if v.len() == 1 && v[0] == '2' {
        assert(v@ =~= "2"@);
        Some(ProtocolChoice::Kitty)
    } else if v.len() == 1 && v[0] == '3' {
        assert(v@ =~= "3"@);
        Some(ProtocolChoice::Iterm2)
    } else if v.len() == 1 && v[0] == '4' {
        assert(v@ =~= "4"@);
        Some(ProtocolChoice::Sixel)
    } else if v.len() == 1 && v[0] == '5' {
        assert(v@ =~= "5"@);
        Some(ProtocolChoice::Halfblocks)
    } else {
        proof {
            if v@.len() == 1 {
                assert(v@ != "2"@ ==> v@[0] != '2');
                assert(v@[0] != "2"@[0]);
                assert(v@[0] != "3"@[0]);
                assert(v@[0] != "4"@[0]);
                assert(v@[0] != "5"@[0]);
            }
        }
        None
    }
}

/// The address of the picture in the reply of the picture service: the
/// reply without its first two and last two characters.
pub open spec fn image_url_spec(body: Seq<char>) -> Seq<char> {
    if body.len() >= 4 {
        body.subrange(2, body.len() - 2)
    } else {
        Seq::empty()
    }
}

/// The address of the picture in the reply of the picture service.
pub fn image_url(body: &str) -> (r: String)
    ensures
        r@ == image_url_spec(body@),
{
    let v = chars_of(body);
    if v.len() >= 4 {
        let u = sub_chars(&v, 2, v.len() - 2);
        string_of(&u)
    } else {
        String::new()
    }
}

/// What the fox screen's caller is to do next.
#[derive(Debug, Clone, Copy, PartialEq, Eq, Structural)]
pub enum FoxAction {
    /// Nothing; draw again.
    Nothing,
    /// Fetch a new picture.
    Fetch,
}

/// The fox screen's state: whether it runs, whether a picture is being
/// fetched, and the frame of the loading spinner.
pub struct FoxState {
    running: bool,
    loading: bool,
    spinner_index: usize,
}

/// The abstract fox screen state.
pub ghost struct FoxView {
    pub running: bool,
    pub loading: bool,
    pub spinner_index: nat,
}

impl View for FoxState {
    type V = FoxView;

    closed spec fn view(&self) -> FoxView {
        FoxView {
            running: self.running,
            loading: self.loading,
            spinner_index: self.spinner_index as nat,
        }
    }
}

/// The spinner frame with this index.
pub open spec fn spinner_frame(i: nat) -> Seq<char> {
    if i == 0 {
        "⠋"@
    } else if i == 1 {
        "⠙"@
    } else if i == 2 {
        "⠹"@
    } else if i == 3 {
        "⠸"@
    } else if i == 4 {
        "⠼"@
    } else if i == 5 {
        "⠴"@
    } else if i == 6 {
        "⠦"@
    } else if i == 7 {
        "⠧"@
    } else if i == 8 {
        "⠇"@
    } else {
        "⠏"@
    }
}

impl FoxState {
    #[verifier::type_invariant]
    spec fn inv(&self) -> bool {
        self.spinner_index < 10
    }

    /// A running screen, loading, on the first spinner frame. Its caller
    /// starts the first fetch with `reload`.
    pub fn new() -> (r: FoxState)
        ensures
            r@.running,
            r@.loading,
            r@.spinner_index == 0,
    {
        FoxState { running: true, loading: true, spinner_index: 0 }
    }

    /// Whether the screen still runs.
    pub fn running(&self) -> (r: bool)
        ensures
            r == self@.running,
    {
        self.running
    }

    /// Whether a picture is being fetched.
    pub fn loading(&self) -> (r: bool)
        ensures
            r == self@.loading,
    {
        self.loading
    }

    /// Starts fetching a picture.
    pub fn reload(&mut self) -> (a: FoxAction)
        ensures
            a == FoxAction::Fetch,
            final(self)@.loading,
            final(self)@.running == old(self)@.running,
            final(self)@.spinner_index == old(self)@.spinner_index,
    {
        proof {
            use_type_invariant(&*self);
        }
        self.loading = true;
        FoxAction::Fetch
    }

    /// Takes a pressed key: `q` stops the screen; `r` fetches a new picture
    /// unless one is being fetched; other keys do nothing.
    pub fn on_key(&mut self, c: char) -> (a: FoxAction)
        ensures
            c == 'q' ==> a == FoxAction::Nothing && final(self)@ == (FoxView {
                running: false,
                ..old(self)@
            }),
            c == 'r' && !old(self)@.loading ==> a == FoxAction::Fetch && final(self)@ == (FoxView {
                loading: true,
                ..old(self)@
            }),
            c == 'r' && old(self)@.loading ==> a == FoxAction::Nothing && final(self)@ == old(self)@,
            c != 'q' && c != 'r' ==> a == FoxAction::Nothing && final(self)@ == old(self)@,
    {
        proof {
            use_type_invariant(&*self);
        }
        if c == 'q' {
            self.running = false;
            FoxAction::Nothing
        } else if c == 'r' {
            if !self.loading {
                self.reload()
            } else {
                FoxAction::Nothing
            }
        } else {
            FoxAction::Nothing
        }
    }

    /// A tick of the timer: the spinner moves on while loading.
    pub fn on_tick(&mut self)
        ensures
            final(self)@.running == old(self)@.running,
            final(self)@.loading == old(self)@.loading,
            final(self)@.spinner_index == (if old(self)@.loading {
                (old(self)@.spinner_index + 1) % 10
            } else {
                old(self)@.spinner_index
            }),
    {
        proof {
            use_type_invariant(&*self);
        }
        if self.loading {
            self.spinner_index = (self.spinner_index + 1) % 10;
        }
    }

    /// A fetched picture arrived, and it decoded or not. A decoded picture
    /// shows and loading stops; a picture that does not decode stops the
    /// screen with an error, and nothing changes here. Returns whether the
    /// screen goes on.
    pub fn on_image(&mut self, decoded: bool) -> (goes_on: bool)
        ensures
            goes_on == decoded,
            decoded ==> final(self)@ == (FoxView { loading: false, ..old(self)@ }),
            !decoded ==> final(self)@ == old(self)@,
    {
        proof {
            use_type_invariant(&*self);
        }
        if decoded {
            self.loading = false;
        }
        decoded
    }

    /// Fetching a picture failed: loading stops, and the screen goes on.
    pub fn on_load_error(&mut self)
        ensures
            final(self)@ == (FoxView { loading: false, ..old(self)@ }),
    {
        proof {
            use_type_invariant(&*self);
        }
        self.loading = false;
    }

    /// The text shown while loading: `Loading... ` and the spinner frame.
    pub fn loading_text(&self) -> (r: String)
        ensures
            r@ == "Loading... "@ + spinner_frame(self@.spinner_index),
    {
        proof {
            use_type_invariant(self);
        }
        let frame = match self.spinner_index {
            0 => "⠋",
            1 => "⠙",
            2 => "⠹",
            3 => "⠸",
            4 => "⠼",
            5 => "⠴",
            6 => "⠦",
            7 => "⠧",
            8 => "⠇",
            _ => "⠏",
        };
        let mut r = "Loading... ".to_owned();
        let f = chars_of(frame);
        push_chars(&mut r, &f);
        r
    }
}

} // verus!
