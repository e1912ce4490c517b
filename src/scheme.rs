use vstd::prelude::*;

use crate::table::CodeTable;

verus! {

/// What a scheme is, as mathematical values.
pub struct SchemeView {
    pub name: Seq<char>,
    pub description: Seq<char>,
    pub initials: Map<Seq<char>, Seq<char>>,
    pub finals: Map<Seq<char>, Seq<char>>,
    pub special_finals: Map<Seq<char>, Seq<char>>,
}

/// The first character of `p`, or nothing when `p` is empty.
pub open spec fn first_char(p: Seq<char>) -> Seq<char> {
    if p.len() == 0 {
        Seq::empty()
    } else {
        p.take(1)
    }
}

/// The initial cluster of a non-empty syllable: its first two characters when
/// they form a registered initial, otherwise its first character.
pub open spec fn initial_cluster(initials: Map<Seq<char>, Seq<char>>, p: Seq<char>) -> Seq<char> {
    if p.len() >= 2 && initials.contains_key(p.take(2)) {
        p.take(2)
    } else {
        p.take(1)
    }
}

/// The final cluster of a non-empty syllable: what follows its initial cluster.
pub open spec fn final_cluster(initials: Map<Seq<char>, Seq<char>>, p: Seq<char>) -> Seq<char> {
    p.skip(initial_cluster(initials, p).len() as int)
}

/// The (initial code, final code) pair of syllable `p` under scheme `m`.
pub open spec fn initial_final(m: SchemeView, p: Seq<char>) -> Option<(Seq<char>, Seq<char>)> {
    if m.special_finals.contains_key(p) {
        Some((first_char(p), m.special_finals[p]))
    } else if p.len() == 0 {
        None
    } else {
        let ini = initial_cluster(m.initials, p);
        let fin = final_cluster(m.initials, p);
        if m.initials.contains_key(ini) && m.finals.contains_key(fin) {
            Some((m.initials[ini], m.finals[fin]))
        } else {
            None
        }
    }
}

/// A pair of codes, as character sequences.
pub open spec fn pair_view(r: Option<(String, String)>) -> Option<(Seq<char>, Seq<char>)> {
    match r {
        Some(p) => Some((p.0@, p.1@)),
        None => None,
    }
}

/// Initial clusters of the Microsoft scheme and their keys.
pub open spec fn microsoft_initials() -> Map<Seq<char>, Seq<char>> {
    map![
        "b"@ => "b"@,
        "p"@ => "p"@,
        "m"@ => "m"@,
        "f"@ => "f"@,
        "d"@ => "d"@,
        "t"@ => "t"@,
        "n"@ => "n"@,
        "l"@ => "l"@,
        "g"@ => "g"@,
        "k"@ => "k"@,
        "h"@ => "h"@,
        "j"@ => "j"@,
        "q"@ => "q"@,
        "x"@ => "x"@,
        "zh"@ => "v"@,
        "ch"@ => "i"@,
        "sh"@ => "u"@,
        "r"@ => "r"@,
        "z"@ => "z"@,
        "c"@ => "c"@,
        "s"@ => "s"@,
        "y"@ => "y"@,
        "w"@ => "w"@,
    ]
}

/// Final clusters of the Microsoft scheme and their keys.
pub open spec fn microsoft_finals() -> Map<Seq<char>, Seq<char>> {
    map![
        "a"@ => "a"@,
        "o"@ => "o"@,
        "e"@ => "e"@,
        "i"@ => "i"@,
        "u"@ => "u"@,
        "v"@ => "v"@,
        "ai"@ => "l"@,
        "ei"@ => "z"@,
        "ui"@ => "v"@,
        "ao"@ => "k"@,
        "ou"@ => "b"@,
        "iu"@ => "q"@,
        "ie"@ => "x"@,
        "ue"@ => "t"@,
        "er"@ => "r"@,
        "an"@ => "j"@,
        "en"@ => "f"@,
        "in"@ => "n"@,
        "un"@ => "p"@,
        "ang"@ => "h"@,
        "eng"@ => "g"@,
        "ing"@ => "y"@,
        "ong"@ => "s"@,
        "iang"@ => "d"@,
        "uang"@ => "d"@,
        "iong"@ => "s"@,
        "ua"@ => "w"@,
        "ia"@ => "w"@,
        "uan"@ => "r"@,
        "ian"@ => "m"@,
        "zhang"@ => "vh"@,
        "chang"@ => "ih"@,
        "shang"@ => "uh"@,
    ]
}

/// Whole syllables that the Microsoft scheme codes as a unit.
pub open spec fn microsoft_special_finals() -> Map<Seq<char>, Seq<char>> {
    map![
        "zhi"@ => "v"@,
        "chi"@ => "i"@,
        "shi"@ => "u"@,
        "zi"@ => "zi"@,
        "ci"@ => "ci"@,
        "si"@ => "si"@,
    ]
}

/// The Microsoft scheme as a value.
pub open spec fn microsoft_view() -> SchemeView {
    SchemeView {
        name: "微软双拼"@,
        description: "微软双拼输入法方案"@,
        initials: microsoft_initials(),
        finals: microsoft_finals(),
        special_finals: microsoft_special_finals(),
    }
}


/// Looking a syllable up twice in the same scheme gives the same codes both
/// times: a result of `get_initial_final` depends on the scheme and the syllable
/// alone.
pub proof fn lemma_lookup_deterministic(
    m: SchemeView,
    p: Seq<char>,
    r1: Option<(String, String)>,
    r2: Option<(String, String)>,
)
    requires
        pair_view(r1) == initial_final(m, p),
        pair_view(r2) == initial_final(m, p),
    ensures
        pair_view(r1) == pair_view(r2),
{
}

/// A syllable that is not coded as a whole and starts with a registered
/// two-letter initial takes that initial, not its first letter alone, when
/// what follows is a registered final.
pub proof fn lemma_two_letter_initial_first(m: SchemeView, p: Seq<char>)
    requires
        !m.special_finals.contains_key(p),
        p.len() >= 2,
        m.initials.contains_key(p.take(2)),
        m.finals.contains_key(p.skip(2)),
    ensures
        initial_cluster(m.initials, p) == p.take(2),
        initial_final(m, p) == Some((m.initials[p.take(2)], m.finals[p.skip(2)])),
{
}

/// A syllable that the scheme codes as a whole gives its first character and
/// its whole-syllable code, whatever the other tables hold.
pub proof fn lemma_special_final_first(m: SchemeView, p: Seq<char>)
    requires
        m.special_finals.contains_key(p),
    ensures
        initial_final(m, p) == Some((first_char(p), m.special_finals[p])),
{
}

/// A syllable that is not coded as a whole gives no codes at all when its
/// initial or its final cluster has no code; otherwise both codes come from the
/// tables.
pub proof fn lemma_failure_is_total(m: SchemeView, p: Seq<char>)
    requires
        !m.special_finals.contains_key(p),
    ensures
        p.len() == 0 ==> initial_final(m, p) is None,
        p.len() > 0 && !m.initials.contains_key(initial_cluster(m.initials, p))
            ==> initial_final(m, p) is None,
        p.len() > 0 && !m.finals.contains_key(final_cluster(m.initials, p))
            ==> initial_final(m, p) is None,
        initial_final(m, p) is Some ==> p.len() > 0
            && initial_final(m, p) == Some(
            (
                m.initials[initial_cluster(m.initials, p)],
                m.finals[final_cluster(m.initials, p)],
            ),
        ),
{
}

/// A shuangpin scheme: which key codes each initial cluster, each final
/// cluster, and each specially coded whole syllable.
pub struct ShuangpinScheme {
    pub name: String,
    pub description: String,
    pub initials: CodeTable,
    pub finals: CodeTable,
    pub special_finals: CodeTable,
}

impl View for ShuangpinScheme {
    type V = SchemeView;

    open spec fn view(&self) -> SchemeView {
        SchemeView {
            name: self.name@,
            description: self.description@,
            initials: self.initials@,
            finals: self.finals@,
            special_finals: self.special_finals@,
        }
    }
}

impl ShuangpinScheme {
    /// The Microsoft scheme.
    pub fn microsoft() -> (r: ShuangpinScheme)
        ensures
            r@ == microsoft_view(),
    {
        let mut initials = CodeTable::new();
        initials.insert("b", "b");
        initials.insert("p", "p");
        initials.insert("m", "m");
        initials.insert("f", "f");
        initials.insert("d", "d");
        initials.insert("t", "t");
        initials.insert("n", "n");
        initials.insert("l", "l");
        initials.insert("g", "g");
        initials.insert("k", "k");
        initials.insert("h", "h");
        initials.insert("j", "j");
        initials.insert("q", "q");
        initials.insert("x", "x");
        initials.insert("zh", "v");
        initials.insert("ch", "i");
        initials.insert("sh", "u");
        initials.insert("r", "r");
        initials.insert("z", "z");
        initials.insert("c", "c");
        initials.insert("s", "s");
        initials.insert("y", "y");
        initials.insert("w", "w");

        let mut finals = CodeTable::new();
        finals.insert("a", "a");
        finals.insert("o", "o");
        finals.insert("e", "e");
        finals.insert("i", "i");
        finals.insert("u", "u");
        finals.insert("v", "v");
        finals.insert("ai", "l");
        finals.insert("ei", "z");
        finals.insert("ui", "v");
        finals.insert("ao", "k");
        finals.insert("ou", "b");
        finals.insert("iu", "q");
        finals.insert("ie", "x");
        finals.insert("ue", "t");
        finals.insert("er", "r");
        finals.insert("an", "j");
        finals.insert("en", "f");
        finals.insert("in", "n");
        finals.insert("un", "p");
        finals.insert("ang", "h");
        finals.insert("eng", "g");
        finals.insert("ing", "y");
        finals.insert("ong", "s");
        finals.insert("iang", "d");
        finals.insert("uang", "d");
        finals.insert("iong", "s");
        finals.insert("ua", "w");
        finals.insert("ia", "w");
        finals.insert("uan", "r");
        finals.insert("ian", "m");
        finals.insert("zhang", "vh");
        finals.insert("chang", "ih");
        finals.insert("shang", "uh");

        let mut special_finals = CodeTable::new();
        special_finals.insert("zhi", "v");
        special_finals.insert("chi", "i");
        special_finals.insert("shi", "u");
        special_finals.insert("zi", "zi");
        special_finals.insert("ci", "ci");
        special_finals.insert("si", "si");

        ShuangpinScheme {
            name: String::from_str("微软双拼"),
            description: String::from_str("微软双拼输入法方案"),
            initials,
            finals,
            special_finals,
        }
    }

    /// A copy of the scheme.
    pub fn copy(&self) -> (r: ShuangpinScheme)
        ensures
            r@ == self@,
    {
        ShuangpinScheme {
            name: self.name.clone(),
            description: self.description.clone(),
            initials: self.initials.copy(),
            finals: self.finals.copy(),
            special_finals: self.special_finals.copy(),
        }
    }

    /// Splits `pinyin` into its initial and final clusters and gives the key
    /// code of each; `None` when either has no code.
    pub fn get_initial_final(&self, pinyin: &str) -> (r: Option<(String, String)>)
        ensures
            pair_view(r) == initial_final(self@, pinyin@),
    {
        match self.special_finals.get(pinyin) {
            Some(special) => {
                let n = pinyin.unicode_len();
                let first = if n == 0 {
                    String::new()
                } else {
                    String::from_str(pinyin.substring_char(0, 1))
                };
                return Some((first, special));
            },
            None => {},
        }
        let n = pinyin.unicode_len();
        if n == 0 {
            return None;
        }
        let mut initial_len: usize = 1;
        if n >= 2 {
            let two = pinyin.substring_char(0, 2);
            if self.initials.contains_key(two) {
                initial_len = 2;
            }
        }
        let initial = pinyin.substring_char(0, initial_len);
        let final_part = pinyin.substring_char(initial_len, n);
        assert(initial@ == initial_cluster(self.initials@, pinyin@));
        assert(final_part@ =~= final_cluster(self.initials@, pinyin@));
        match self.initials.get(initial) {
            Some(initial_code) => match self.finals.get(final_part) {
                Some(final_code) => Some((initial_code, final_code)),
                None => None,
            },
            None => None,
        }
    }
}

} // verus!
