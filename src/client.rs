//! The kinds of effect that the companion process can select.
use vstd::prelude::*;
use vstd::string::StrSliceExecFns;
use vstd::utf8::is_ascii_chars;

verus! {

/// The closed set of effect kinds, in the order in which they are listed.
#[derive(Clone, Copy, Debug, PartialEq, Eq, Structural)]
pub enum ClientType {
    TestEffect,
    RainbowEffect,
    RandomEffect,
    CodingEffect,
    MusicVisualiserEffect,
    TypingRippleEffect,
}

/// Whether the status page shows the strip as on.
#[derive(Clone, Copy, Debug, PartialEq, Eq, Structural)]
pub enum WebStatus {
    On,
    Off,
}

/// The status that a word stands for, once lower-cased: `off`, `false` and
/// `0` turn it off, anything else on.
pub open spec fn web_status_of(lowered: Seq<char>) -> WebStatus {
    if lowered == "off"@ || lowered == "false"@ || lowered == "0"@ {
        WebStatus::Off
    } else {
        WebStatus::On
    }
}

/// The lower-case form of a string, by Unicode's rules.
pub uninterp spec fn lower_of(s: Seq<char>) -> Seq<char>;

/// Relies on str::to_lowercase: the result depends on the characters alone.
#[verifier::external_body]
fn lowercase(s: &str) -> (r: String)
    ensures
        r@ == lower_of(s@),
{
    s.to_lowercase()
}

impl WebStatus {
    /// Reads a word that is already lower-cased.
    pub fn from_lowered(lowered: &str) -> (r: WebStatus)
        ensures
            r == web_status_of(lowered@),
    {
        if same_text(lowered, "off") || same_text(lowered, "false") || same_text(lowered, "0") {
            WebStatus::Off
        } else {
            WebStatus::On
        }
    }

    /// Reads a word in any case: `off`, `false` and `0` turn the status off,
    /// anything else (`on`, `true`, `1` among them) on.
    pub fn from_text(value: &str) -> (r: WebStatus)
        ensures
            r == web_status_of(lower_of(value@)),
    {
        let lowered = lowercase(value);
        WebStatus::from_lowered(lowered.as_str())
    }
}

/// The kinds in the order in which they are listed.
pub open spec fn all_kinds() -> Seq<ClientType> {
    seq![
        ClientType::TestEffect,
        ClientType::RainbowEffect,
        ClientType::RandomEffect,
        ClientType::CodingEffect,
        ClientType::MusicVisualiserEffect,
        ClientType::TypingRippleEffect,
    ]
}

/// The name under which a kind is listed and matched.
pub open spec fn kind_name(k: ClientType) -> Seq<char> {
    match k {
        ClientType::TestEffect => "TestEffect"@,
        ClientType::RainbowEffect => "RainbowEffect"@,
        ClientType::RandomEffect => "RandomEffect"@,
        ClientType::CodingEffect => "CodingEffect"@,
        ClientType::MusicVisualiserEffect => "MusicVisualiserEffect"@,
        ClientType::TypingRippleEffect => "TypingRippleEffect"@,
    }
}

/// The names of all kinds, in the order in which they are listed.
pub open spec fn kind_names() -> Seq<Seq<char>> {
    all_kinds().map_values(|k: ClientType| kind_name(k))
}

/// The position among `names` of the best fuzzy match for `needle`, if one is
/// close enough and no tie remains.
pub uninterp spec fn fuzzy_choice(needle: Seq<char>, names: Seq<Seq<char>>) -> Option<int>;

/// The kind at a position of the list, if the position is in it.
pub open spec fn kind_at(choice: Option<int>) -> Option<ClientType> {
    match choice {
        Some(i) => if 0 <= i < all_kinds().len() {
            Some(all_kinds()[i])
        } else {
            None
        },
        None => None,
    }
}

/// Relies on fuzzy_match::fuzzy_match, given each name paired with its
/// position: the pick depends on the needle and the names alone and is one of
/// the positions handed in. It panics on an empty list, and its tie-break
/// can panic on text with a character of more than one byte; `requires`
/// leaves both out.
#[verifier::external_body]
fn fuzzy_index(needle: &str, names: &Vec<&str>) -> (r: Option<usize>)
    requires
        names@.len() > 0,
        is_ascii_chars(needle@),
        forall|i: int| 0 <= i < names@.len() ==> is_ascii_chars(#[trigger] names@[i]@),
    ensures
        r matches Some(i) ==> i < names@.len(),
        r matches Some(i) ==> fuzzy_choice(needle@, names@.map_values(|s: &str| s@)) == Some(i as int),
        r is None ==> fuzzy_choice(needle@, names@.map_values(|s: &str| s@)) is None,
{
    fuzzy_match::fuzzy_match(needle, names.iter().enumerate().map(|(i, s)| (*s, i)))
}

/// Whether two strings hold the same characters.
pub fn same_text(a: &str, b: &str) -> (r: bool)
    ensures
        r == (a@ == b@),
{
    let n = a.unicode_len();
    if n != b.unicode_len() {
        return false;
    }
    let mut i: usize = 0;
    while i < n
        invariant
            n == a@.len(),
            n == b@.len(),
            i <= n,
            a@.subrange(0, i as int) == b@.subrange(0, i as int),
        decreases n - i,
    {
        if a.get_char(i) != b.get_char(i) {
            assert(a@[i as int] != b@[i as int]);
            return false;
        }
        assert(a@.subrange(0, i + 1) =~= a@.subrange(0, i as int).push(a@[i as int]));
        assert(b@.subrange(0, i + 1) =~= b@.subrange(0, i as int).push(b@[i as int]));
        i = i + 1;
    }
    assert(a@ =~= a@.subrange(0, n as int));
    assert(b@ =~= b@.subrange(0, n as int));
    true
}

impl ClientType {
    /// The name under which this kind is listed.
    pub fn name(self) -> (r: &'static str)
        ensures
            r@ == kind_name(self),
            is_ascii_chars(r@),
    {
        proof {
            reveal_strlit("TestEffect");
            reveal_strlit("RainbowEffect");
            reveal_strlit("RandomEffect");
            reveal_strlit("CodingEffect");
            reveal_strlit("MusicVisualiserEffect");
            reveal_strlit("TypingRippleEffect");
        }
        match self {
            ClientType::TestEffect => "TestEffect",
            ClientType::RainbowEffect => "RainbowEffect",
            ClientType::RandomEffect => "RandomEffect",
            ClientType::CodingEffect => "CodingEffect",
            ClientType::MusicVisualiserEffect => "MusicVisualiserEffect",
            ClientType::TypingRippleEffect => "TypingRippleEffect",
        }
    }

    /// The kind whose name matches `value` best, by fuzzy matching against
    /// every kind's name; none when no name is close enough, and none for
    /// text that is not ASCII, which no name is.
    pub fn from_name(value: &str) -> (r: Option<ClientType>)
        ensures
            !is_ascii_chars(value@) ==> r is None,
            is_ascii_chars(value@) ==> r == kind_at(fuzzy_choice(value@, kind_names())),
    {
        if !value.is_ascii() {
            return None;
        }
        let kinds = ClientType::all();
        let mut names: Vec<&str> = Vec::new();
        let mut i: usize = 0;
        while i < kinds.len()
            invariant
                kinds@ == all_kinds(),
                i <= kinds@.len(),
                names@.len() == i,
                forall|j: int| 0 <= j < i ==> (#[trigger] names@[j])@ == kind_name(all_kinds()[j]),
                forall|j: int| 0 <= j < i ==> is_ascii_chars(#[trigger] names@[j]@),
            decreases kinds@.len() - i,
        {
            names.push(kinds[i].name());
            i = i + 1;
        }
        assert(names@.map_values(|s: &str| s@) =~= kind_names());
        let choice = fuzzy_index(value, &names);
        match choice {
            Some(i) => ClientType::from_index(i),
            None => None,
        }
    }

    /// Every kind, in the order in which they are listed.
    pub fn all() -> (r: Vec<ClientType>)
        ensures
            r@ == all_kinds(),
    {
        let r = vec![
            ClientType::TestEffect,
            ClientType::RainbowEffect,
            ClientType::RandomEffect,
            ClientType::CodingEffect,
            ClientType::MusicVisualiserEffect,
            ClientType::TypingRippleEffect,
        ];
        assert(r@ =~= all_kinds());
        r
    }

    /// The kind at `index` in the list, if there is one.
    pub fn from_index(index: usize) -> (r: Option<ClientType>)
        ensures
            index < all_kinds().len() ==> r == Some(all_kinds()[index as int]),
            index >= all_kinds().len() ==> r is None,
    {
        if index == 0 {
            Some(ClientType::TestEffect)
        } else if index == 1 {
            Some(ClientType::RainbowEffect)
        } else if index == 2 {
            Some(ClientType::RandomEffect)
        } else if index == 3 {
            Some(ClientType::CodingEffect)
        } else if index == 4 {
            Some(ClientType::MusicVisualiserEffect)
        } else if index == 5 {
            Some(ClientType::TypingRippleEffect)
        } else {
            None
        }
    }
}

} // verus!
