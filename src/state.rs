use vstd::prelude::*;

use crate::scheme::{initial_final, microsoft_view, SchemeView, ShuangpinScheme};

verus! {

/// Whether `name` identifies a scheme that can be switched to.
pub open spec fn is_known_scheme(name: Seq<char>) -> bool {
    name == "microsoft"@
}

/// The scheme in effect after asking to switch from `before` to `name`.
pub open spec fn switched(before: SchemeView, name: Seq<char>) -> SchemeView {
    if is_known_scheme(name) {
        microsoft_view()
    } else {
        before
    }
}

/// The (initial, final part, validity) record for syllable `p` under scheme
/// `m`: the two codes and `true`, or two empty strings and `false`.
pub open spec fn code_record(m: SchemeView, p: Seq<char>) -> (Seq<char>, Seq<char>, bool) {
    match initial_final(m, p) {
        Some(c) => (c.0, c.1, true),
        None => (Seq::empty(), Seq::empty(), false),
    }
}

/// After a switch, the scheme in effect is the one named when the name is
/// known, and the one from before when it is not.
pub proof fn lemma_switch_then_current(before: SchemeView, name: Seq<char>, current: SchemeView)
    requires
        current == switched(before, name),
    ensures
        is_known_scheme(name) ==> current == microsoft_view() && current.name == microsoft_view().name,
        !is_known_scheme(name) ==> current == before,
{
}

/// The codes of one syllable, with a flag that says whether it was recognised.
pub struct PinyinResult {
    pub initial: String,
    pub final_part: String,
    pub is_valid: bool,
}

/// The scheme in effect for one user of the library.
pub struct UserState {
    pub scheme: ShuangpinScheme,
}

impl UserState {
    /// A state with the default scheme, Microsoft, in effect.
    pub fn new() -> (r: UserState)
        ensures
            r.scheme@ == microsoft_view(),
    {
        UserState { scheme: ShuangpinScheme::microsoft() }
    }

    /// A copy of the scheme in effect.
    pub fn get_current_scheme(&self) -> (r: ShuangpinScheme)
        ensures
            r@ == self.scheme@,
    {
        self.scheme.copy()
    }

    /// Puts the scheme called `scheme_name` in effect and returns `true`; leaves
    /// the state as it is and returns `false` when no scheme has that name.
    pub fn switch_scheme(&mut self, scheme_name: &str) -> (r: bool)
        ensures
            r == is_known_scheme(scheme_name@),
            final(self).scheme@ == switched(old(self).scheme@, scheme_name@),
    {
        let name = String::from_str(scheme_name);
        if name.eq(&String::from_str("microsoft")) {
            self.scheme = ShuangpinScheme::microsoft();
            true
        } else {
            false
        }
    }

    /// The codes of `pinyin` under the scheme in effect.
    pub fn get_shuangpin_code(&self, pinyin: &str) -> (r: PinyinResult)
        ensures
            (r.initial@, r.final_part@, r.is_valid) == code_record(self.scheme@, pinyin@),
    {
        match self.scheme.get_initial_final(pinyin) {
            Some(codes) => PinyinResult { initial: codes.0, final_part: codes.1, is_valid: true },
            None => PinyinResult { initial: String::new(), final_part: String::new(), is_valid: false },
        }
    }
}

} // verus!
