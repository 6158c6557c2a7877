use vstd::prelude::*;

verus! {

/// Whether a pattern text is accepted by the regular-expression compiler
/// (with case-insensitive matching switched on). The answer depends on the
/// pattern text alone.
pub uninterp spec fn pattern_compiles(pattern: Seq<char>) -> bool;

/// The result of a case-insensitive, unanchored regular-expression search of
/// `text` for `pattern`. The answer depends on the pattern and the text alone.
pub uninterp spec fn pattern_matches(pattern: Seq<char>, text: Seq<char>) -> bool;

#[verifier::external_type_specification]
#[verifier::external_body]
pub struct ExRegex(regex::Regex);

/// A pattern together with its compiled, case-insensitive matcher. The only
/// constructor is `compile`, so the matcher always belongs to the stored
/// pattern text.
pub struct CachedPattern {
    pattern: String,
    matcher: regex::Regex,
}

impl CachedPattern {
    pub closed spec fn pattern_view(&self) -> Seq<char> {
        self.pattern@
    }

    /// Relies on regex::RegexBuilder::build, with case_insensitive(true):
    /// compilation succeeds or fails depending on the pattern text alone.
    #[verifier::external_body]
    fn compile(pattern: String) -> (r: Option<CachedPattern>)
        ensures
            r.is_some() == pattern_compiles(pattern@),
            r matches Some(e) ==> e.pattern_view() == pattern@,
    {
        match regex::RegexBuilder::new(&pattern).case_insensitive(true).build() {
            Ok(matcher) => Some(CachedPattern { pattern, matcher }),
            Err(_) => None,
        }
    }

    /// Relies on regex::Regex::is_match: an unanchored search whose result
    /// depends only on the compiled pattern and the text searched.
    #[verifier::external_body]
    fn is_match(&self, text: &String) -> (r: bool)
        ensures
            r == pattern_matches(self.pattern_view(), text@),
    {
        self.matcher.is_match(text)
    }
}

/// A present pattern is satisfied by a text when it compiles and the
/// case-insensitive search finds it in the text.
pub open spec fn spec_pattern_hit(pattern: Seq<char>, text: Seq<char>) -> bool {
    pattern_compiles(pattern) && pattern_matches(pattern, text)
}

/// Field-level match semantics: an absent pattern constrains nothing; a
/// present pattern cannot be satisfied by absent data; otherwise the text is
/// searched for the pattern.
pub open spec fn spec_field_matches(actual: Option<Seq<char>>, pattern: Option<Seq<char>>) -> bool {
    match pattern {
        Option::None => true,
        Option::Some(p) => match actual {
            Option::None => false,
            Option::Some(a) => spec_pattern_hit(p, a),
        },
    }
}

/// The process-wide compiled-pattern cache: a mapping from pattern text to
/// compiled matcher, built lazily with insert-if-absent semantics and never
/// evicted. It is constructed once by the caller and passed by reference.
pub struct PatternCache {
    entries: Vec<CachedPattern>,
}

impl PatternCache {
    /// The pattern texts currently cached, in insertion order.
    pub closed spec fn patterns(&self) -> Seq<Seq<char>> {
        self.entries@.map(|i: int, e: CachedPattern| e.pattern_view())
    }

    /// Cached pattern texts are pairwise distinct, and each of them compiles.
    pub closed spec fn wf(&self) -> bool {
        &&& forall|i: int, j: int|
            0 <= i < j < self.entries@.len() ==> self.entries@[i].pattern_view()
                != self.entries@[j].pattern_view()
        &&& forall|i: int|
            0 <= i < self.entries@.len() ==> pattern_compiles(#[trigger] self.entries@[i].pattern_view())
    }

    pub fn new() -> (r: Self)
        ensures
            r.wf(),
            r.patterns() == Seq::<Seq<char>>::empty(),
    {
        let r = PatternCache { entries: Vec::new() };
        proof {
            assert(r.patterns() =~= Seq::<Seq<char>>::empty());
        }
        r
    }

    /// Search `text` for `pattern`, case-insensitively, compiling and caching
    /// the pattern on its first use: a cached pattern is reused, a new one
    /// that compiles is appended (insert-if-absent, never evicted), and a
    /// pattern that does not compile yields no match and is not cached.
    pub fn matches(&mut self, pattern: &String, text: &String) -> (r: bool)
        requires
            old(self).wf(),
        ensures
            final(self).wf(),
            r == spec_pattern_hit(pattern@, text@),
            old(self).patterns().contains(pattern@) ==> final(self).patterns()
                == old(self).patterns(),
            !old(self).patterns().contains(pattern@) && pattern_compiles(pattern@)
                ==> final(self).patterns() == old(self).patterns().push(pattern@),
            !pattern_compiles(pattern@) ==> final(self).patterns() == old(self).patterns(),
    {
        let n = self.entries.len();
        let mut i: usize = 0;
        while i < n
            invariant
                self.wf(),
                n == self.entries@.len(),
                i <= n,
                forall|k: int| 0 <= k < i ==> self.entries@[k].pattern_view() != pattern@,
            decreases n - i,
        {
            if self.entries[i].pattern == *pattern {
                proof {
                    assert(self.patterns()[i as int] == pattern@);
                    assert(self.patterns().contains(pattern@));
                }
                return self.entries[i].is_match(text);
            }
            i += 1;
        }
        proof {
            assert forall|k: int| 0 <= k < self.patterns().len() implies self.patterns()[k]
                != pattern@ by {
                assert(self.patterns()[k] == self.entries@[k].pattern_view());
            }
            assert(!self.patterns().contains(pattern@));
        }
        match CachedPattern::compile(pattern.clone()) {
            Option::Some(entry) => {
                let hit = entry.is_match(text);
                self.entries.push(entry);
                proof {
                    assert(self.patterns() =~= old(self).patterns().push(pattern@));
                }
                hit
            },
            Option::None => false,
        }
    }

    /// Field-level match with the cache: an absent pattern matches anything,
    /// a present pattern rejects absent data, and otherwise the text is
    /// searched for the pattern.
    pub fn cached_match(&mut self, input: Option<&String>, pattern: Option<&String>) -> (r: bool)
        requires
            old(self).wf(),
        ensures
            final(self).wf(),
            r == spec_field_matches(
                match input {
                    Option::Some(s) => Option::Some(s@),
                    Option::None => Option::None,
                },
                match pattern {
                    Option::Some(p) => Option::Some(p@),
                    Option::None => Option::None,
                },
            ),
    {
        match pattern {
            Option::None => true,
            Option::Some(p) => match input {
                Option::None => false,
                Option::Some(s) => self.matches(p, s),
            },
        }
    }
}

} // verus!
