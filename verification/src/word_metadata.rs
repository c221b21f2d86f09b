//! What is known of a word: its parts of speech and their facets.

use vstd::prelude::*;

verus! {

/// What is known of a word as a noun. `None` in a field means unknown.
#[derive(Debug, Clone, Copy, PartialEq, Eq, Structural)]
pub struct NounData {
    pub is_proper: Option<bool>,
    pub is_plural: Option<bool>,
    pub is_possessive: Option<bool>,
}

/// What is known of a word as a verb.
#[derive(Debug, Clone, Copy, PartialEq, Eq, Structural)]
pub struct VerbData {
    pub is_linking: Option<bool>,
}

/// Marks a word as usable as an adjective.
#[derive(Debug, Clone, Copy, PartialEq, Eq, Structural)]
pub struct AdjectiveData {}

/// Marks a word as a conjunction or a contraction.
#[derive(Debug, Clone, Copy, PartialEq, Eq, Structural)]
pub struct ConjunctionData {}

/// The facets of a word that lint rules read. An absent facet means that
/// the word is not known to play that part of speech.
#[derive(Debug, Clone, Copy, PartialEq, Eq, Structural)]
pub struct WordMetadata {
    pub noun: Option<NounData>,
    pub verb: Option<VerbData>,
    pub adjective: Option<AdjectiveData>,
    pub conjunction: Option<ConjunctionData>,
}

/// The first of two optional facts that is known.
pub open spec fn first_known<T>(a: Option<T>, b: Option<T>) -> Option<T> {
    if a is Some {
        a
    } else {
        b
    }
}

fn known_flag(a: Option<bool>, b: Option<bool>) -> (r: Option<bool>)
    ensures
        r == first_known(a, b),
{
    match a {
        Some(_) => a,
        None => b,
    }
}

impl NounData {
    pub open spec fn union(self, other: NounData) -> NounData {
        NounData {
            is_proper: first_known(self.is_proper, other.is_proper),
            is_plural: first_known(self.is_plural, other.is_plural),
            is_possessive: first_known(self.is_possessive, other.is_possessive),
        }
    }

    /// Every fact known in either record, preferring `self` where both
    /// know one.
    pub fn or(&self, other: &Self) -> (r: Self)
        ensures
            r == self.union(*other),
    {
        NounData {
            is_proper: known_flag(self.is_proper, other.is_proper),
            is_plural: known_flag(self.is_plural, other.is_plural),
            is_possessive: known_flag(self.is_possessive, other.is_possessive),
        }
    }
}

impl Default for NounData {
    fn default() -> (r: Self)
        ensures
            r == (NounData { is_proper: None, is_plural: None, is_possessive: None }),
    {
        NounData { is_proper: None, is_plural: None, is_possessive: None }
    }
}

impl VerbData {
    pub open spec fn union(self, other: VerbData) -> VerbData {
        VerbData { is_linking: first_known(self.is_linking, other.is_linking) }
    }

    pub fn or(&self, other: &Self) -> (r: Self)
        ensures
            r == self.union(*other),
    {
        VerbData { is_linking: known_flag(self.is_linking, other.is_linking) }
    }
}

impl WordMetadata {
    /// The record that knows nothing.
    pub open spec fn empty() -> WordMetadata {
        WordMetadata { noun: None, verb: None, adjective: None, conjunction: None }
    }

    pub open spec fn union(self, other: WordMetadata) -> WordMetadata {
        WordMetadata {
            noun: match (self.noun, other.noun) {
                (Some(a), Some(b)) => Some(a.union(b)),
                (Some(a), None) => Some(a),
                (None, b) => b,
            },
            verb: match (self.verb, other.verb) {
                (Some(a), Some(b)) => Some(a.union(b)),
                (Some(a), None) => Some(a),
                (None, b) => b,
            },
            adjective: first_known(self.adjective, other.adjective),
            conjunction: first_known(self.conjunction, other.conjunction),
        }
    }

    /// Whether every fact of `self` is also in `other`.
    pub open spec fn within(self, other: WordMetadata) -> bool {
        other.union(self) == other
    }

    /// The metadata after an apostrophe joined the word to a suffix:
    /// `'s` makes a possessive noun and is no contraction; any other
    /// suffix makes a contraction and a noun, if it is one, that is not
    /// possessive. All other facets stay.
    pub open spec fn joined(self, possessive: bool) -> WordMetadata {
        if possessive {
            WordMetadata {
                noun: Some(
                    NounData {
                        is_possessive: Some(true),
                        ..match self.noun {
                            Some(noun) => noun,
                            None => NounData { is_proper: None, is_plural: None, is_possessive: None },
                        }
                    },
                ),
                conjunction: None,
                ..self
            }
        } else {
            WordMetadata {
                noun: match self.noun {
                    Some(noun) => Some(NounData { is_possessive: Some(false), ..noun }),
                    None => None,
                },
                conjunction: Some(ConjunctionData {  }),
                ..self
            }
        }
    }

    /// Combines two records for the same word: the union of what they
    /// know, preferring `self` where both know a fact.
    pub fn or(&self, other: &Self) -> (r: Self)
        ensures
            r == self.union(*other),
    {
        let noun = match (self.noun, other.noun) {
            (Some(a), Some(b)) => Some(a.or(&b)),
            (Some(a), None) => Some(a),
            (None, b) => b,
        };
        let verb = match (self.verb, other.verb) {
            (Some(a), Some(b)) => Some(a.or(&b)),
            (Some(a), None) => Some(a),
            (None, b) => b,
        };
        let adjective = match self.adjective {
            Some(_) => self.adjective,
            None => other.adjective,
        };
        let conjunction = match self.conjunction {
            Some(_) => self.conjunction,
            None => other.conjunction,
        };
        WordMetadata { noun, verb, adjective, conjunction }
    }

    pub fn with_joined_suffix(&self, possessive: bool) -> (r: Self)
        ensures
            r == self.joined(possessive),
    {
        if possessive {
            let base = match self.noun {
                Some(noun) => noun,
                None => NounData::default(),
            };
            WordMetadata {
                noun: Some(
                    NounData {
                        is_proper: base.is_proper,
                        is_plural: base.is_plural,
                        is_possessive: Some(true),
                    },
                ),
                verb: self.verb,
                adjective: self.adjective,
                conjunction: None,
            }
        } else {
            let noun = match self.noun {
                Some(noun) => Some(
                    NounData {
                        is_proper: noun.is_proper,
                        is_plural: noun.is_plural,
                        is_possessive: Some(false),
                    },
                ),
                None => None,
            };
            WordMetadata {
                noun,
                verb: self.verb,
                adjective: self.adjective,
                conjunction: Some(ConjunctionData {  }),
            }
        }
    }

    pub fn is_noun(&self) -> (r: bool)
        ensures
            r == (self.noun is Some),
    {
        self.noun.is_some()
    }

    pub fn is_verb(&self) -> (r: bool)
        ensures
            r == (self.verb is Some),
    {
        self.verb.is_some()
    }

    pub fn is_adjective(&self) -> (r: bool)
        ensures
            r == (self.adjective is Some),
    {
        self.adjective.is_some()
    }

    pub fn is_conjunction(&self) -> (r: bool)
        ensures
            r == (self.conjunction is Some),
    {
        self.conjunction.is_some()
    }

    pub fn is_possessive_noun(&self) -> (r: bool)
        ensures
            r == (self.noun matches Some(noun) && noun.is_possessive == Some(true)),
    {
        match self.noun {
            Some(noun) => match noun.is_possessive {
                Some(flag) => flag,
                None => false,
            },
            None => false,
        }
    }
}

impl Default for WordMetadata {
    fn default() -> (r: Self)
        ensures
            r == WordMetadata::empty(),
    {
        WordMetadata { noun: None, verb: None, adjective: None, conjunction: None }
    }
}

/// Combining metadata only adds facts: both records are within their
/// union, and a record combined with itself is unchanged.
pub proof fn lemma_union_enriches(a: WordMetadata, b: WordMetadata)
    ensures
        a.within(a.union(b)),
        a.union(a) == a,
        a.union(WordMetadata::empty()) == a,
        WordMetadata::empty().union(a) == a,
{
}

} // verus!
