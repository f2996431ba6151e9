//! Location metadata: a read-through cache keyed by location identifier,
//! and synthetic records for the four reserved pseudo-identifiers that
//! describe a presence state rather than a fetchable location.

use crate::errors::{ApiError, ApiErrorV};
use crate::json::{json_world_fields, world_fields};
use crate::kvlist::KvList;
use crate::text::str_eq;
use vstd::prelude::*;
use vstd::string::StringExecFns;

verus! {

/// Display metadata of one location.
#[derive(Debug, Clone)]
pub struct WorldRecord {
    pub id: String,
    pub display_name: String,
    pub thumbnail_url: String,
}

/// Ghost image of `WorldRecord`.
pub ghost struct WorldRecordV {
    pub id: Seq<char>,
    pub display_name: Seq<char>,
    pub thumbnail_url: Seq<char>,
}

impl View for WorldRecord {
    type V = WorldRecordV;

    open spec fn view(&self) -> WorldRecordV {
        WorldRecordV {
            id: self.id@,
            display_name: self.display_name@,
            thumbnail_url: self.thumbnail_url@,
        }
    }
}

impl WorldRecord {
    /// An owned copy with the same contents.
    pub fn duplicate(&self) -> (r: WorldRecord)
        ensures
            r@ == self@,
    {
        WorldRecord {
            id: self.id.clone(),
            display_name: self.display_name.clone(),
            thumbnail_url: self.thumbnail_url.clone(),
        }
    }
}

/// The four reserved pseudo-identifiers. They stand for a presence state,
/// are never fetched and are never cached.
pub open spec fn is_sentinel(id: Seq<char>) -> bool {
    ||| id == "private"@
    ||| id == "web_or_mobile"@
    ||| id == "offline"@
    ||| id == "traveling"@
}

/// The fixed record served for a reserved pseudo-identifier.
pub open spec fn sentinel_view(id: Seq<char>) -> WorldRecordV {
    if id == "offline"@ {
        WorldRecordV {
            id: id,
            display_name: "Offline"@,
            thumbnail_url: "https://assets.vrchat.com/www/images/user-location-offline.png"@,
        }
    } else {
        WorldRecordV {
            id: id,
            display_name: if id == "private"@ {
                "In a private world"@
            } else if id == "web_or_mobile"@ {
                "On Web or Mobile"@
            } else {
                "In a traveling world"@
            },
            thumbnail_url: "https://assets.vrchat.com/www/images/user-location-private-world.png"@,
        }
    }
}

fn sentinel_with(id: &str, display_name: &str, thumbnail_url: &str) -> (r: WorldRecord)
    ensures
        r@ == (WorldRecordV {
            id: id@,
            display_name: display_name@,
            thumbnail_url: thumbnail_url@,
        }),
{
    WorldRecord {
        id: String::from_str(id),
        display_name: String::from_str(display_name),
        thumbnail_url: String::from_str(thumbnail_url),
    }
}

/// The four reserved identifiers differ pairwise.
proof fn lemma_sentinel_ids_distinct()
    ensures
        "private"@ != "web_or_mobile"@,
        "private"@ != "offline"@,
        "private"@ != "traveling"@,
        "web_or_mobile"@ != "offline"@,
        "web_or_mobile"@ != "traveling"@,
        "offline"@ != "traveling"@,
{
    reveal_strlit("private");
    reveal_strlit("web_or_mobile");
    reveal_strlit("offline");
    reveal_strlit("traveling");
    assert("private"@[0] == 'p');
    assert("web_or_mobile"@[0] == 'w');
    assert("offline"@[0] == 'o');
    assert("traveling"@[0] == 't');
}

/// The fixed record for a reserved pseudo-identifier, or `None` for a real
/// location identifier.
pub fn sentinel_record(id: &str) -> (r: Option<WorldRecord>)
    ensures
        r is Some <==> is_sentinel(id@),
        r matches Some(w) ==> w@ == sentinel_view(id@),
{
    proof {
        lemma_sentinel_ids_distinct();
    }
    if str_eq(id, "private") {
        Some(
            sentinel_with(
                id,
                "In a private world",
                "https://assets.vrchat.com/www/images/user-location-private-world.png",
            ),
        )
    } else if str_eq(id, "web_or_mobile") {
        Some(
            sentinel_with(
                id,
                "On Web or Mobile",
                "https://assets.vrchat.com/www/images/user-location-private-world.png",
            ),
        )
    } else if str_eq(id, "offline") {
        Some(
            sentinel_with(
                id,
                "Offline",
                "https://assets.vrchat.com/www/images/user-location-offline.png",
            ),
        )
    } else if str_eq(id, "traveling") {
        Some(
            sentinel_with(
                id,
                "In a traveling world",
                "https://assets.vrchat.com/www/images/user-location-private-world.png",
            ),
        )
    } else {
        None
    }
}

/// What a local, network-free resolution step decided.
#[derive(Debug)]
pub enum LocalResolution {
    /// A reserved pseudo-identifier: the fixed record, no cache interaction.
    Sentinel(WorldRecord),
    /// A cache hit: the stored record.
    Cached(WorldRecord),
    /// A cache miss: the caller must fetch the record remotely and hand the
    /// reply to `apply_fetch`.
    NeedsFetch,
}

/// Ghost image of `LocalResolution`.
pub ghost enum LocalResolutionV {
    Sentinel(WorldRecordV),
    Cached(WorldRecordV),
    NeedsFetch,
}

impl View for LocalResolution {
    type V = LocalResolutionV;

    open spec fn view(&self) -> LocalResolutionV {
        match self {
            LocalResolution::Sentinel(w) => LocalResolutionV::Sentinel(w@),
            LocalResolution::Cached(w) => LocalResolutionV::Cached(w@),
            LocalResolution::NeedsFetch => LocalResolutionV::NeedsFetch,
        }
    }
}

/// What became of a fetched metadata payload.
#[derive(Debug)]
pub enum FetchResolution {
    /// The payload parsed: the record, now also cached.
    Parsed(WorldRecord),
    /// The payload did not parse: the raw text, served uncached.
    Raw(String),
}

/// Ghost image of `FetchResolution`.
pub ghost enum FetchResolutionV {
    Parsed(WorldRecordV),
    Raw(Seq<char>),
}

impl View for FetchResolution {
    type V = FetchResolutionV;

    open spec fn view(&self) -> FetchResolutionV {
        match self {
            FetchResolution::Parsed(w) => FetchResolutionV::Parsed(w@),
            FetchResolution::Raw(t) => FetchResolutionV::Raw(t@),
        }
    }
}

/// The record described by the three extracted metadata fields.
pub open spec fn world_of_fields(f: (Seq<char>, Seq<char>, Seq<char>)) -> WorldRecordV {
    WorldRecordV { id: f.0, display_name: f.1, thumbnail_url: f.2 }
}

/// The local, network-free part of `resolve`.
pub open spec fn spec_resolve_local(
    cache: Map<Seq<char>, WorldRecordV>,
    id: Seq<char>,
) -> LocalResolutionV {
    if is_sentinel(id) {
        LocalResolutionV::Sentinel(sentinel_view(id))
    } else if cache.contains_key(id) {
        LocalResolutionV::Cached(cache[id])
    } else {
        LocalResolutionV::NeedsFetch
    }
}

/// How a fetched reply changes the cache and what it resolves to: on a
/// well-formed success the parsed record is cached and returned; on a
/// malformed success the raw text is returned and nothing is cached; on a
/// remote error nothing is cached.
pub open spec fn spec_apply_fetch(
    cache: Map<Seq<char>, WorldRecordV>,
    id: Seq<char>,
    status: u16,
    fields: Option<(Seq<char>, Seq<char>, Seq<char>)>,
    body: Seq<char>,
) -> (Map<Seq<char>, WorldRecordV>, Result<FetchResolutionV, ApiErrorV>) {
    if status == 200 {
        match fields {
            Some(f) => (
                cache.insert(id, world_of_fields(f)),
                Ok(FetchResolutionV::Parsed(world_of_fields(f))),
            ),
            None => (cache, Ok(FetchResolutionV::Raw(body))),
        }
    } else {
        (cache, Err(ApiErrorV::FetchFailed))
    }
}

/// The view of an exec fetch result.
pub open spec fn fetch_result_view(r: Result<FetchResolution, ApiError>) -> Result<
    FetchResolutionV,
    ApiErrorV,
> {
    match r {
        Ok(f) => Ok(f@),
        Err(e) => Err(e@),
    }
}

/// Read-through cache for location metadata: insertion-only, process-wide
/// lifetime, no eviction.
pub struct WorldCache {
    entries: KvList<WorldRecord>,
}

impl View for WorldCache {
    type V = Map<Seq<char>, WorldRecordV>;

    closed spec fn view(&self) -> Map<Seq<char>, WorldRecordV> {
        self.entries@
    }
}

impl WorldCache {
    pub closed spec fn wf(self) -> bool {
        self.entries.wf()
    }

    pub fn new() -> (r: Self)
        ensures
            r.wf(),
            r@ == Map::<Seq<char>, WorldRecordV>::empty(),
    {
        WorldCache { entries: KvList::new() }
    }

    /// The cached record under `id`, if any.
    pub fn lookup(&self, id: &str) -> (r: Option<&WorldRecord>)
        requires
            self.wf(),
        ensures
            r is Some <==> self@.contains_key(id@),
            r matches Some(w) ==> self@.contains_key(id@) && w@ == self@[id@],
    {
        self.entries.get(id)
    }

    /// Stores a record under `id`, the last writer winning.
    pub fn insert(&mut self, id: String, record: WorldRecord)
        requires
            old(self).wf(),
        ensures
            final(self).wf(),
            final(self)@ == old(self)@.insert(id@, record@),
    {
        self.entries.insert(id, record);
    }

    /// The network-free resolution step: a reserved pseudo-identifier is
    /// served synthetically, a cached identifier from the cache, and
    /// anything else asks the caller to fetch. Only a `NeedsFetch` outcome
    /// ever leads to a network request.
    pub fn resolve_local(&self, id: &str) -> (r: LocalResolution)
        requires
            self.wf(),
        ensures
            r@ == spec_resolve_local(self@, id@),
    {
        match sentinel_record(id) {
            Some(w) => LocalResolution::Sentinel(w),
            None => match self.lookup(id) {
                Some(w) => LocalResolution::Cached(w.duplicate()),
                None => LocalResolution::NeedsFetch,
            },
        }
    }

    /// Folds a fetched reply into the cache. A malformed payload is handed
    /// back raw and never cached, so a schema drift cannot poison the cache;
    /// a remote error caches nothing and is reported as a fetch failure.
    pub fn apply_fetch(&mut self, id: &str, status: u16, body: String) -> (r: Result<
        FetchResolution,
        ApiError,
    >)
        requires
            old(self).wf(),
        ensures
            final(self).wf(),
            ({
                let (m, res) = spec_apply_fetch(
                    old(self)@,
                    id@,
                    status,
                    json_world_fields(body@),
                    body@,
                );
                final(self)@ == m && fetch_result_view(r) == res
            }),
    {
        if status != 200 {
            return Err(ApiError::FetchFailed);
        }
        match world_fields(body.as_str()) {
            Some(fields) => {
                let (wid, name, thumbnail) = fields;
                let record = WorldRecord {
                    id: wid,
                    display_name: name,
                    thumbnail_url: thumbnail,
                };
                self.insert(String::from_str(id), record.duplicate());
                Ok(FetchResolution::Parsed(record))
            },
            None => Ok(FetchResolution::Raw(body)),
        }
    }
}

/// A reserved pseudo-identifier resolves to its fixed record whatever the
/// cache holds — in particular before any cache population — and without
/// asking for a fetch.
pub proof fn lemma_sentinel_bypasses_cache(cache: Map<Seq<char>, WorldRecordV>, id: Seq<char>)
    requires
        is_sentinel(id),
    ensures
        spec_resolve_local(cache, id) == LocalResolutionV::Sentinel(sentinel_view(id)),
{
}

/// The four reserved pseudo-identifiers and the display names of their
/// fixed records.
pub proof fn lemma_sentinel_records()
    ensures
        is_sentinel("private"@) && sentinel_view("private"@).display_name
            == "In a private world"@,
        is_sentinel("web_or_mobile"@) && sentinel_view("web_or_mobile"@).display_name
            == "On Web or Mobile"@,
        is_sentinel("offline"@) && sentinel_view("offline"@).display_name == "Offline"@,
        is_sentinel("traveling"@) && sentinel_view("traveling"@).display_name
            == "In a traveling world"@,
{
    lemma_sentinel_ids_distinct();
}

/// A cache miss on a real identifier asks for exactly one fetch.
pub proof fn lemma_miss_needs_fetch(cache: Map<Seq<char>, WorldRecordV>, id: Seq<char>)
    requires
        !is_sentinel(id),
        !cache.contains_key(id),
    ensures
        spec_resolve_local(cache, id) == LocalResolutionV::NeedsFetch,
{
}

/// Once a record is cached under a real identifier, a later resolution of
/// the same identifier is served from the cache, identical to what was
/// stored, with no further fetch.
pub proof fn lemma_read_through_hit(
    cache: Map<Seq<char>, WorldRecordV>,
    id: Seq<char>,
    w: WorldRecordV,
)
    requires
        !is_sentinel(id),
    ensures
        spec_resolve_local(cache.insert(id, w), id) == LocalResolutionV::Cached(w),
{
}

/// A reply that is not a well-formed success never changes the cache: a
/// malformed payload is passed through raw, an error status reports a fetch
/// failure.
pub proof fn lemma_fetch_never_poisons(
    cache: Map<Seq<char>, WorldRecordV>,
    id: Seq<char>,
    status: u16,
    fields: Option<(Seq<char>, Seq<char>, Seq<char>)>,
    body: Seq<char>,
)
    requires
        status != 200 || fields is None,
    ensures
        spec_apply_fetch(cache, id, status, fields, body).0 == cache,
{
}

} // verus!
