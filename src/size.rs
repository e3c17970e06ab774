use vstd::prelude::*;

verus! {

/// The fixed vocabulary of instance sizes.
#[derive(Clone, Copy, Debug, PartialEq, Eq, Structural)]
pub enum Size {
    Tiny,
    Micro,
    Small,
    Medium,
    Large,
    ExtraLarge,
    Mega,
    Huge,
    Jumbo,
    Titan,
    Colossus,
}

impl Size {
    /// The configuration token that names this size.
    pub open spec fn token(self) -> Seq<char> {
        match self {
            Size::Tiny => "tiny"@,
            Size::Micro => "micro"@,
            Size::Small => "small"@,
            Size::Medium => "medium"@,
            Size::Large => "large"@,
            Size::ExtraLarge => "extra-large"@,
            Size::Mega => "mega"@,
            Size::Huge => "huge"@,
            Size::Jumbo => "jumbo"@,
            Size::Titan => "titan"@,
            Size::Colossus => "colossus"@,
        }
    }

    /// The configuration token that names this size.
    pub fn as_str(&self) -> (r: &'static str)
        ensures
            r@ == self.token(),
    {
        match self {
            Size::Tiny => "tiny",
            Size::Micro => "micro",
            Size::Small => "small",
            Size::Medium => "medium",
            Size::Large => "large",
            Size::ExtraLarge => "extra-large",
            Size::Mega => "mega",
            Size::Huge => "huge",
            Size::Jumbo => "jumbo",
            Size::Titan => "titan",
            Size::Colossus => "colossus",
        }
    }
}

/// Whether two texts are equal.
pub fn same_text(a: &str, b: &str) -> (r: bool)
    ensures
        r == (a@ == b@),
{
    a.to_owned() == b.to_owned()
}

/// The size that a configuration token names, if any.
pub open spec fn size_of_token(t: Seq<char>) -> Option<Size> {
    if exists|z: Size| z.token() == t {
        Some(choose|z: Size| z.token() == t)
    } else {
        None
    }
}

/// The tokens of distinct sizes differ, so a token names at most one size.
pub proof fn lemma_tokens_distinct(a: Size, b: Size)
    requires
        a.token() == b.token(),
    ensures
        a == b,
{
    reveal_strlit("tiny");
    reveal_strlit("micro");
    reveal_strlit("small");
    reveal_strlit("medium");
    reveal_strlit("large");
    reveal_strlit("extra-large");
    reveal_strlit("mega");
    reveal_strlit("huge");
    reveal_strlit("jumbo");
    reveal_strlit("titan");
    reveal_strlit("colossus");
    let (ta, tb) = (a.token(), b.token());
    assert(ta.len() == tb.len());
    assert(ta[0] == tb[0]);
    assert(ta[1] == tb[1]);
    assert(ta[2] == tb[2]);
}

/// Every size of the vocabulary is named by its own token.
pub proof fn lemma_vocabulary_round_trip(z: Size)
    ensures
        size_of_token(z.token()) == Some(z),
{
    let w = choose|w: Size| w.token() == z.token();
    lemma_tokens_distinct(w, z);
}

/// Maps a configuration token to its size: every token of the vocabulary
/// gives its own size, and any other text gives `None`.
pub fn map_str_to_size(size_str: &str) -> (r: Option<Size>)
    ensures
        r == size_of_token(size_str@),
        match r {
            Some(z) => z.token() == size_str@,
            None => forall|z: Size| z.token() != size_str@,
        },
{
    let all: [Size; 11] = [
        Size::Tiny,
        Size::Micro,
        Size::Small,
        Size::Medium,
        Size::Large,
        Size::ExtraLarge,
        Size::Mega,
        Size::Huge,
        Size::Jumbo,
        Size::Titan,
        Size::Colossus,
    ];
    let mut i: usize = 0;
    while i < 11
        invariant
            0 <= i <= 11,
            all@ == seq![
                Size::Tiny,
                Size::Micro,
                Size::Small,
                Size::Medium,
                Size::Large,
                Size::ExtraLarge,
                Size::Mega,
                Size::Huge,
                Size::Jumbo,
                Size::Titan,
                Size::Colossus,
            ],
            forall|j: int| 0 <= j < i ==> all@[j].token() != size_str@,
        decreases 11 - i,
    {
        let z = all[i];
        if same_text(z.as_str(), size_str) {
            proof {
                assert forall|w: Size| w.token() == size_str@ implies w == z by {
                    lemma_tokens_distinct(w, z);
                }
            }
            return Some(z);
        }
        i = i + 1;
    }
    proof {
        assert forall|z: Size| z.token() != size_str@ by {
            let k: int = match z {
                Size::Tiny => 0,
                Size::Micro => 1,
                Size::Small => 2,
                Size::Medium => 3,
                Size::Large => 4,
                Size::ExtraLarge => 5,
                Size::Mega => 6,
                Size::Huge => 7,
                Size::Jumbo => 8,
                Size::Titan => 9,
                Size::Colossus => 10,
            };
            assert(all@[k] == z);
        }
    }
    None
}

} // verus!
