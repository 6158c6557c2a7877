use vstd::prelude::*;

verus! {

/// Where a resolved identifier-list payload came from. The tag is
/// informational; consumers only read the bytes.
pub enum Source {
    /// The compiled-in fallback.
    Embed(Vec<u8>),
    /// The on-disk cache.
    Local(Vec<u8>),
    /// A fresh network fetch.
    Remote(Vec<u8>),
}

impl Source {
    /// The payload bytes, whatever the tag.
    pub open spec fn spec_content(&self) -> Seq<u8> {
        match self {
            Source::Embed(b) => b@,
            Source::Local(b) => b@,
            Source::Remote(b) => b@,
        }
    }

    pub fn get_content(&self) -> (r: &Vec<u8>)
        ensures
            r@ == self.spec_content(),
    {
        match self {
            Source::Embed(content) => content,
            Source::Local(resource) => resource,
            Source::Remote(resource) => resource,
        }
    }
}

/// The three tiers of the resolution cascade, in the order they are
/// consulted.
#[derive(Clone, Copy, Debug, PartialEq, Eq, Structural)]
pub enum RetrievalMethod {
    Offline,
    Online,
    Embedded,
}

impl RetrievalMethod {
    /// The tier's name as it appears in messages.
    pub fn label(&self) -> (r: String)
        ensures
            r@ == match self {
                RetrievalMethod::Offline => "offline"@,
                RetrievalMethod::Online => "online"@,
                RetrievalMethod::Embedded => "embedded"@,
            },
    {
        match self {
            RetrievalMethod::Offline => String::from_str("offline"),
            RetrievalMethod::Online => String::from_str("online"),
            RetrievalMethod::Embedded => String::from_str("embedded"),
        }
    }
}

/// Why one tier, or the whole cascade, yielded nothing.
pub enum RetrievalErr {
    /// The configuration forbids consulting this tier.
    Disallowed(RetrievalMethod),
    /// The named resource could not be obtained from this tier.
    Failed(String, RetrievalMethod),
}

/// The first tier the cascade consults.
pub fn first_tier() -> (r: RetrievalMethod)
    ensures
        r is Offline,
{
    RetrievalMethod::Offline
}

/// The tier consulted after the given one fails or is disallowed; failure
/// of the embedded tier is terminal.
pub fn next_tier(tier: RetrievalMethod) -> (r: Option<RetrievalMethod>)
    ensures
        r == match tier {
            RetrievalMethod::Offline => Option::Some(RetrievalMethod::Online),
            RetrievalMethod::Online => Option::Some(RetrievalMethod::Embedded),
            RetrievalMethod::Embedded => Option::<RetrievalMethod>::None,
        },
{
    match tier {
        RetrievalMethod::Offline => Option::Some(RetrievalMethod::Online),
        RetrievalMethod::Online => Option::Some(RetrievalMethod::Embedded),
        RetrievalMethod::Embedded => Option::None,
    }
}

/// Whether a tier may be attempted at all: the offline tier only when
/// caching is enabled, the online tier only when update checking is
/// enabled, and the embedded tier always.
pub fn tier_allowed(tier: RetrievalMethod, use_cache: bool, allow_updates: bool) -> (r: bool)
    ensures
        r == match tier {
            RetrievalMethod::Offline => use_cache,
            RetrievalMethod::Online => allow_updates,
            RetrievalMethod::Embedded => true,
        },
{
    match tier {
        RetrievalMethod::Offline => use_cache,
        RetrievalMethod::Online => allow_updates,
        RetrievalMethod::Embedded => true,
    }
}

/// Tag fetched bytes with the tier that produced them.
pub fn source_of(tier: RetrievalMethod, bytes: Vec<u8>) -> (r: Source)
    ensures
        r.spec_content() == bytes@,
        match tier {
            RetrievalMethod::Offline => r is Local,
            RetrievalMethod::Online => r is Remote,
            RetrievalMethod::Embedded => r is Embed,
        },
{
    match tier {
        RetrievalMethod::Offline => Source::Local(bytes),
        RetrievalMethod::Online => Source::Remote(bytes),
        RetrievalMethod::Embedded => Source::Embed(bytes),
    }
}

/// A fetched online payload is written back to the offline cache only when
/// caching is enabled (best-effort; a write failure is a warning, not a
/// resolution failure).
pub fn should_write_back(use_cache: bool, source: &Source) -> (r: bool)
    ensures
        r == (use_cache && source is Remote),
{
    use_cache && match source {
        Source::Remote(_) => true,
        _ => false,
    }
}

/// What the cascade yields, given what each tier would produce were it
/// consulted: the first allowed tier with content wins, in the order
/// offline, online, embedded; `None` when all three fail.
pub open spec fn spec_resolve(
    use_cache: bool,
    allow_updates: bool,
    offline: Option<Seq<u8>>,
    online: Option<Seq<u8>>,
    embedded: Option<Seq<u8>>,
) -> Option<(RetrievalMethod, Seq<u8>)> {
    if use_cache && offline is Some {
        Option::Some((RetrievalMethod::Offline, offline->0))
    } else if allow_updates && online is Some {
        Option::Some((RetrievalMethod::Online, online->0))
    } else if embedded is Some {
        Option::Some((RetrievalMethod::Embedded, embedded->0))
    } else {
        Option::None
    }
}

/// The whole cascade over the tiers' outcomes. Each argument is what the
/// tier would yield were it consulted (`None`: it fails). The caller only
/// sees an error when every tier fails, and that error reports the
/// embedded tier as the final cause.
pub fn resolve_with(
    identifier: String,
    use_cache: bool,
    allow_updates: bool,
    offline: Option<Vec<u8>>,
    online: Option<Vec<u8>>,
    embedded: Option<Vec<u8>>,
) -> (r: Result<Source, RetrievalErr>)
    ensures
        match spec_resolve(
            use_cache,
            allow_updates,
            match offline {
                Option::Some(b) => Option::Some(b@),
                Option::None => Option::None,
            },
            match online {
                Option::Some(b) => Option::Some(b@),
                Option::None => Option::None,
            },
            match embedded {
                Option::Some(b) => Option::Some(b@),
                Option::None => Option::None,
            },
        ) {
            Option::Some(picked) => {
                &&& r matches Ok(s)
                &&& s.spec_content() == picked.1
                &&& match picked.0 {
                    RetrievalMethod::Offline => s is Local,
                    RetrievalMethod::Online => s is Remote,
                    RetrievalMethod::Embedded => s is Embed,
                }
            },
            Option::None => r matches Err(e) && e matches RetrievalErr::Failed(id, m) && id@
                == identifier@ && m is Embedded,
        },
{
    if use_cache {
        if let Option::Some(bytes) = offline {
            return Result::Ok(Source::Local(bytes));
        }
    }
    if allow_updates {
        if let Option::Some(bytes) = online {
            return Result::Ok(Source::Remote(bytes));
        }
    }
    match embedded {
        Option::Some(bytes) => Result::Ok(Source::Embed(bytes)),
        Option::None => Result::Err(
            RetrievalErr::Failed(identifier, RetrievalMethod::Embedded),
        ),
    }
}

/// Cascade order: when the offline cache is enabled and populated, its
/// content is returned untouched; the later tiers are never consulted,
/// whatever they hold.
pub proof fn lemma_cascade_prefers_offline(
    use_cache: bool,
    allow_updates: bool,
    offline: Seq<u8>,
    online: Option<Seq<u8>>,
    embedded: Option<Seq<u8>>,
)
    requires
        use_cache,
    ensures
        spec_resolve(use_cache, allow_updates, Option::Some(offline), online, embedded)
            == Option::Some((RetrievalMethod::Offline, offline)),
{
}

/// Cascade fallback: with the offline tier disabled and the online tier
/// yielding nothing, the embedded content is returned.
pub proof fn lemma_cascade_falls_back_to_embedded(
    allow_updates: bool,
    offline: Option<Seq<u8>>,
    embedded: Seq<u8>,
)
    ensures
        spec_resolve(false, allow_updates, offline, Option::None, Option::Some(embedded))
            == Option::Some((RetrievalMethod::Embedded, embedded)),
{
}

/// The fixed location an identifier list is fetched from online: the
/// remote base URL, the version tag, and the configuration directory,
/// followed by the identifier.
pub fn resource_url(identifier: &String) -> (r: String)
    ensures
        r@ == "https://raw.githubusercontent.com/X9VoiD/TabletDriverCleanup/v4.x/config/"@
            + identifier@,
{
    let mut url = String::from_str(
        "https://raw.githubusercontent.com/X9VoiD/TabletDriverCleanup/v4.x/config/",
    );
    url.append(identifier.as_str());
    url
}

} // verus!
