//! The process-wide state behind the logging surface: the module registry
//! with its resolution algorithm, and the padding counters read at render
//! time.
//!
//! The registry and the counters are plain values here; an embedding
//! application owns one of each for the whole process and threads them
//! through registration and log calls.

use vstd::prelude::*;
use vstd::string::StrSliceExecFns;

use crate::LogError;
use crate::logger::Logger;

verus! {

/// An entry of the registry: which logger a module uses.
///
/// The two-state design lets a module say explicitly "use my parent's
/// logger" (`Super`), which is distinct from having no entry at all: an
/// explicit link keeps working however registration of other modules is
/// ordered.
#[derive(Debug, PartialEq)]
pub enum LoggerLocation {
    /// Use the logger resolved for the parent module.
    Super,
    /// Use this logger, owned by the entry.
    Here(Logger),
}

/// Start index of the last `::` separator that a left-to-right scan of
/// `p` finds from position `i` on, never splitting a separator already
/// consumed; `last` carries the best index found so far (-1 for none).
///
/// Scanning greedily from the left mirrors how a path is split into
/// segments, so that e.g. in `a:::b` the separator is taken at the first
/// possible position and the trailing `:` belongs to the next segment.
pub open spec fn last_sep_from(p: Seq<char>, i: int, last: int) -> int
    decreases p.len() - i,
{
    if i < 0 || i + 1 >= p.len() {
        last
    } else if p[i] == ':' && p[i + 1] == ':' {
        last_sep_from(p, i + 2, i)
    } else {
        last_sep_from(p, i + 1, last)
    }
}

/// Start index of the last separator of the whole path, or -1 if the
/// path is a single segment.
pub open spec fn last_sep(p: Seq<char>) -> int {
    last_sep_from(p, 0, -1)
}

/// The parent of a module path: everything before the last separator,
/// or the root path (empty) for a single-segment path.
pub open spec fn parent_of(p: Seq<char>) -> Seq<char> {
    let s = last_sep(p);
    if 0 <= s && s < p.len() {
        p.subrange(0, s)
    } else {
        Seq::empty()
    }
}

/// A parent path is strictly shorter than its (non-root) child; the
/// resolution walk therefore always makes progress toward the root.
pub proof fn lemma_parent_shorter(p: Seq<char>)
    requires
        p.len() > 0,
    ensures
        parent_of(p).len() < p.len(),
{
}

/// Character-wise string equality, decided without trusting any string
/// comparison routine.
pub fn str_eq(a: &str, b: &str) -> (r: bool)
    ensures
        r == (a@ == b@),
{
    let a_len = a.unicode_len();
    let b_len = b.unicode_len();
    if a_len != b_len {
        return false;
    }
    let mut i: usize = 0;
    while i < a_len
        invariant
            i <= a_len,
            a_len == a@.len(),
            a_len == b@.len(),
            forall|j: int| 0 <= j < i ==> a@[j] == b@[j],
        decreases a_len - i,
    {
        if a.get_char(i) != b.get_char(i) {
            return false;
        }
        i = i + 1;
    }
    proof {
        assert(a@ =~= b@);
    }
    true
}

/// The parent of a module path, as executable code: the path up to the
/// last `::` found by a greedy left-to-right scan, or the root path.
pub fn parent_module(module: &str) -> (r: String)
    ensures
        r@ == parent_of(module@),
{
    let len = module.unicode_len();
    if len == 0 {
        return String::new();
    }
    let mut i: usize = 0;
    let mut sep_found = false;
    let mut sep_at: usize = 0;
    while i < len - 1
        invariant
            1 <= len,
            i <= len,
            len == module@.len(),
            sep_found ==> sep_at < len,
            last_sep(module@) == last_sep_from(
                module@,
                i as int,
                if sep_found {
                    sep_at as int
                } else {
                    -1
                },
            ),
        decreases len - i,
    {
        if module.get_char(i) == ':' && module.get_char(i + 1) == ':' {
            sep_found = true;
            sep_at = i;
            i = i + 2;
        } else {
            i = i + 1;
        }
    }
    if sep_found {
        let parent = module.substring_char(0, sep_at);
        parent.to_owned()
    } else {
        String::new()
    }
}

/// The location stored under `key` by the first entry of `s` whose key
/// matches, scanning front to back.
pub open spec fn assoc_find(s: Seq<(String, LoggerLocation)>, key: Seq<char>) -> Option<
    LoggerLocation,
>
    decreases s.len(),
{
    if s.len() == 0 {
        None
    } else if s[0].0@ == key {
        Some(s[0].1)
    } else {
        assoc_find(s.drop_first(), key)
    }
}

/// If no entry before `i` matches `key` and the entry at `i` does, the
/// scan stops at `i`.
proof fn lemma_assoc_first_match(s: Seq<(String, LoggerLocation)>, i: int, key: Seq<char>)
    requires
        0 <= i < s.len(),
        forall|j: int| 0 <= j < i ==> (#[trigger] s[j]).0@ != key,
        s[i].0@ == key,
    ensures
        assoc_find(s, key) == Some(s[i].1),
    decreases i,
{
    if i > 0 {
        lemma_assoc_first_match(s.drop_first(), i - 1, key);
    }
}

/// If no entry matches `key`, the scan finds nothing.
proof fn lemma_assoc_no_match(s: Seq<(String, LoggerLocation)>, key: Seq<char>)
    requires
        forall|j: int| 0 <= j < s.len() ==> (#[trigger] s[j]).0@ != key,
    ensures
        assoc_find(s, key) is None,
    decreases s.len(),
{
    if s.len() > 0 {
        lemma_assoc_no_match(s.drop_first(), key);
    }
}

/// Replacing the first entry that holds `e`'s key changes what the scan
/// finds under that key and nothing else.
proof fn lemma_assoc_update(
    s: Seq<(String, LoggerLocation)>,
    i: int,
    e: (String, LoggerLocation),
    key: Seq<char>,
)
    requires
        0 <= i < s.len(),
        forall|j: int| 0 <= j < i ==> (#[trigger] s[j]).0@ != e.0@,
        s[i].0@ == e.0@,
    ensures
        assoc_find(s.update(i, e), key) == if key == e.0@ {
            Some(e.1)
        } else {
            assoc_find(s, key)
        },
    decreases i,
{
    let t = s.update(i, e);
    if i == 0 {
        assert(t.drop_first() =~= s.drop_first());
    } else {
        assert(t.drop_first() =~= s.drop_first().update(i - 1, e));
        lemma_assoc_update(s.drop_first(), i - 1, e, key);
    }
}

/// Appending an entry under a key the scan does not yet know changes what
/// it finds under that key and nothing else.
proof fn lemma_assoc_push(
    s: Seq<(String, LoggerLocation)>,
    e: (String, LoggerLocation),
    key: Seq<char>,
)
    requires
        assoc_find(s, e.0@) is None,
    ensures
        assoc_find(s.push(e), key) == if key == e.0@ {
            Some(e.1)
        } else {
            assoc_find(s, key)
        },
    decreases s.len(),
{
    let t = s.push(e);
    if s.len() == 0 {
        assert(t[0] == e);
        assert(t.drop_first() =~= Seq::<(String, LoggerLocation)>::empty());
        if key == e.0@ {
            assert(assoc_find(t, key) == Some(e.1));
        } else {
            assert(assoc_find(t, key) is None);
            assert(assoc_find(s, key) is None);
        }
    } else {
        assert(t[0] == s[0]);
        assert(t.drop_first() =~= s.drop_first().push(e));
        lemma_assoc_push(s.drop_first(), e, key);
        if key == e.0@ {
            assert(s[0].0@ != key);
            assert(assoc_find(t, key) == Some(e.1));
        } else {
            if s[0].0@ == key {
                assert(assoc_find(t, key) == Some(s[0].1));
                assert(assoc_find(s, key) == Some(s[0].1));
            } else {
                assert(assoc_find(t, key) == assoc_find(s.drop_first().push(e), key));
                assert(assoc_find(s, key) == assoc_find(s.drop_first(), key));
            }
        }
    }
}

/// The process-wide mapping from module path to [`LoggerLocation`],
/// together with the resolution algorithm that walks an unconfigured
/// module up to its nearest configured ancestor.
///
/// An embedding application owns a single registry for the whole process
/// and installs an owned entry for the root path (the empty path) before
/// any other registration, so that resolution always has somewhere to
/// stop.
#[derive(Debug)]
pub struct ModuleRegistry {
    pub entries: Vec<(String, LoggerLocation)>,
}

impl ModuleRegistry {
    /// The entry registered for `key`, if any.
    pub open spec fn loc_of(self, key: Seq<char>) -> Option<LoggerLocation> {
        assoc_find(self.entries@, key)
    }

    /// Each module path holds at most one entry.
    pub open spec fn wf(self) -> bool {
        forall|i: int, j: int|
            0 <= i < j < self.entries@.len() ==> (#[trigger] self.entries@[i]).0@ != (
            #[trigger] self.entries@[j]).0@
    }

    /// The root path has an entry of its own (never a deferral), so
    /// resolution of every path succeeds.
    pub open spec fn root_owned(self) -> bool {
        self.loc_of(Seq::empty()) matches Some(LoggerLocation::Here(_))
    }

    /// The logger that resolving `path` yields: the owned entry of `path`
    /// itself, or of the nearest ancestor the walk reaches; `None` when
    /// the walk runs past the root without meeting an owned entry.
    pub open spec fn resolve_spec(self, path: Seq<char>) -> Option<Logger>
        decreases path.len(),
    {
        match self.loc_of(path) {
            Some(loc) => match loc {
                LoggerLocation::Here(logger) => Some(logger),
                LoggerLocation::Super => if path.len() == 0 {
                    None
                } else {
                    self.resolve_spec(parent_of(path))
                },
            },
            None => if path.len() == 0 {
                None
            } else {
                self.resolve_spec(parent_of(path))
            },
        }
    }

    /// An empty registry; the embedding application registers the root
    /// entry before anything else.
    pub fn new() -> (r: ModuleRegistry)
        ensures
            r.wf(),
            forall|k: Seq<char>| #[trigger] r.loc_of(k) is None,
    {
        let r = ModuleRegistry { entries: Vec::new() };
        proof {
            assert forall|k: Seq<char>| #[trigger] r.loc_of(k) is None by {
                assert(r.entries@.len() == 0);
            }
        }
        r
    }

    /// Index of the first entry for `key`, with what the scan finds
    /// there.
    fn find_index(&self, key: &str) -> (r: Option<usize>)
        ensures
            match r {
                Some(i) => {
                    &&& i < self.entries@.len()
                    &&& self.entries@[i as int].0@ == key@
                    &&& forall|j: int|
                        0 <= j < i ==> (#[trigger] self.entries@[j]).0@ != key@
                    &&& self.loc_of(key@) == Some(self.entries@[i as int].1)
                },
                None => {
                    &&& self.loc_of(key@) is None
                    &&& forall|j: int|
                        0 <= j < self.entries@.len() ==> (#[trigger] self.entries@[j]).0@ != key@
                },
            },
    {
        let n = self.entries.len();
        let mut i: usize = 0;
        while i < n
            invariant
                i <= n,
                n == self.entries@.len(),
                forall|j: int| 0 <= j < i ==> (#[trigger] self.entries@[j]).0@ != key@,
            decreases n - i,
        {
            if str_eq(self.entries[i].0.as_str(), key) {
                proof {
                    lemma_assoc_first_match(self.entries@, i as int, key@);
                }
                return Some(i);
            }
            i = i + 1;
        }
        proof {
            lemma_assoc_no_match(self.entries@, key@);
        }
        None
    }

    /// Insert or replace the entry for a module path; the last writer for
    /// a path wins, and no other path is affected.
    pub fn register(&mut self, module: String, location: LoggerLocation)
        ensures
            forall|k: Seq<char>|
                #[trigger] final(self).loc_of(k) == if k == module@ {
                    Some(location)
                } else {
                    old(self).loc_of(k)
                },
            old(self).wf() ==> final(self).wf(),
    {
        let ghost entry_spec = (module, location);
        match self.find_index(module.as_str()) {
            Some(i) => {
                proof {
                    lemma_assoc_first_match(self.entries@, i as int, module@);
                }
                let ghost old_entries = self.entries@;
                self.entries.set(i, (module, location));
                proof {
                    assert forall|k: Seq<char>|
                        #[trigger] assoc_find(self.entries@, k) == if k == entry_spec.0@ {
                            Some(entry_spec.1)
                        } else {
                            assoc_find(old_entries, k)
                        } by {
                        lemma_assoc_update(old_entries, i as int, entry_spec, k);
                    }
                }
            },
            None => {
                let ghost old_entries = self.entries@;
                self.entries.push((module, location));
                proof {
                    assert forall|k: Seq<char>|
                        #[trigger] assoc_find(self.entries@, k) == if k == entry_spec.0@ {
                            Some(entry_spec.1)
                        } else {
                            assoc_find(old_entries, k)
                        } by {
                        lemma_assoc_push(old_entries, entry_spec, k);
                    }
                }
            },
        }
    }

    /// Resolve a module path to its logger.
    ///
    /// The walk looks the path up directly; an owned entry answers the
    /// call, a deferral or a missing entry sends the walk to the parent
    /// path, and only a walk that runs past the root without meeting an
    /// owned entry fails, naming the module the call asked about.
    pub fn resolve<'a>(&'a self, module: &str) -> (r: Result<&'a Logger, LogError>)
        ensures
            r is Ok <==> self.resolve_spec(module@) is Some,
            r is Ok ==> *r->Ok_0 == self.resolve_spec(module@)->0,
            r is Err ==> (r->Err_0 matches LogError::LoggerNotRegistered { module: failed }
                && failed@ == module@),
            self.root_owned() ==> r is Ok,
    {
        proof {
            if self.root_owned() {
                lemma_resolution_terminates(*self, module@);
            }
        }
        let mut cur: String = module.to_owned();
        loop
            invariant
                self.resolve_spec(cur@) == self.resolve_spec(module@),
                self.root_owned() ==> self.resolve_spec(module@) is Some,
            decreases cur@.len(),
        {
            match self.find_index(cur.as_str()) {
                Some(i) => {
                    let entry = &self.entries[i];
                    match &entry.1 {
                        LoggerLocation::Here(logger) => {
                            return Ok(logger);
                        },
                        LoggerLocation::Super => {
                            if cur.unicode_len() == 0 {
                                return Err(
                                    LogError::LoggerNotRegistered { module: module.to_owned() },
                                );
                            }
                            proof {
                                lemma_parent_shorter(cur@);
                            }
                            cur = parent_module(cur.as_str());
                        },
                    }
                },
                None => {
                    if cur.unicode_len() == 0 {
                        return Err(LogError::LoggerNotRegistered { module: module.to_owned() });
                    }
                    proof {
                        lemma_parent_shorter(cur@);
                    }
                    cur = parent_module(cur.as_str());
                },
            }
        }
    }
}

/// Resolution finds a logger for every module path as long as the root
/// entry is owned: stripping segments shortens the path at every step, and
/// the walk can at worst end at the root, which answers it.
pub proof fn lemma_resolution_terminates(reg: ModuleRegistry, path: Seq<char>)
    requires
        reg.root_owned(),
    ensures
        reg.resolve_spec(path) is Some,
    decreases path.len(),
{
    if path.len() == 0 {
        assert(path =~= Seq::<char>::empty());
    } else {
        match reg.loc_of(path) {
            Some(loc) => match loc {
                LoggerLocation::Here(_) => {},
                LoggerLocation::Super => {
                    lemma_parent_shorter(path);
                    lemma_resolution_terminates(reg, parent_of(path));
                },
            },
            None => {
                lemma_parent_shorter(path);
                lemma_resolution_terminates(reg, parent_of(path));
            },
        }
    }
}

/// Resolve the logger of a module; the caller then gates the message and
/// runs the resolved logger's targets.
pub fn run_module_logger<'a>(registry: &'a ModuleRegistry, module: &str) -> (r: Result<
    &'a Logger,
    LogError,
>)
    ensures
        r is Ok <==> registry.resolve_spec(module@) is Some,
        r is Ok ==> *r->Ok_0 == registry.resolve_spec(module@)->0,
        r is Err ==> (r->Err_0 matches LogError::LoggerNotRegistered { module: failed }
            && failed@ == module@),
        registry.root_owned() ==> r is Ok,
{
    registry.resolve(module)
}

/// How a module registration of a path of `len` characters changes the
/// padding counters: the module maximum grows to cover `len`, the
/// level-name maximum is untouched.
pub open spec fn pad_saw_module(old_pad: PadState, new_pad: PadState, len: nat) -> bool {
    &&& new_pad.max_module_len == if len > old_pad.max_module_len {
        len as int
    } else {
        old_pad.max_module_len as int
    }
    &&& new_pad.max_level_name_len == old_pad.max_level_name_len
}

/// Register a logger declaration written inside the module `declared_in`:
/// the entry is keyed by the declaration's enclosing module, which is the
/// parent path of the declaration site, and the module-path padding
/// counter observes the key's length.
///
/// A declaration site is one module below the module it configures, so
/// the key must be the parent path, not the site itself.
pub fn register_module_logger(
    registry: &mut ModuleRegistry,
    pad: &mut PadState,
    declared_in: &str,
    location: LoggerLocation,
)
    ensures
        forall|k: Seq<char>|
            #[trigger] final(registry).loc_of(k) == if k == parent_of(declared_in@) {
                Some(location)
            } else {
                old(registry).loc_of(k)
            },
        old(registry).wf() ==> final(registry).wf(),
        pad_saw_module(*old(pad), *final(pad), parent_of(declared_in@).len()),
{
    let module = parent_module(declared_in);
    let len = module.as_str().unicode_len();
    pad.observe_module(len);
    registry.register(module, location);
}

/// Running maximums of the level-name and module-path lengths seen at
/// registration time, measured in characters.
///
/// Render-time padding reads these so that columns line up across log
/// lines.  Both counters only ever grow; messages logged before a longer
/// name is registered may be padded too narrowly, which is an accepted
/// limitation of observing the maxima incrementally.
#[derive(Debug, Clone, Copy, PartialEq, Eq, Structural)]
pub struct PadState {
    pub max_level_name_len: usize,
    pub max_module_len: usize,
}

impl PadState {
    /// A fresh state: nothing observed yet, both maximums zero.
    pub fn new() -> (r: PadState)
        ensures
            r.max_level_name_len == 0,
            r.max_module_len == 0,
    {
        PadState { max_level_name_len: 0, max_module_len: 0 }
    }

    /// Record a level name of `len` characters; the level-name maximum
    /// never decreases.
    pub fn observe_level_name(&mut self, len: usize)
        ensures
            final(self).max_level_name_len == if len > old(self).max_level_name_len {
                len as int
            } else {
                old(self).max_level_name_len as int
            },
            final(self).max_level_name_len >= old(self).max_level_name_len,
            final(self).max_module_len == old(self).max_module_len,
    {
        if len > self.max_level_name_len {
            self.max_level_name_len = len;
        }
    }

    /// Record a module path of `len` characters; the module-path maximum
    /// never decreases.
    pub fn observe_module(&mut self, len: usize)
        ensures
            final(self).max_module_len == if len > old(self).max_module_len {
                len as int
            } else {
                old(self).max_module_len as int
            },
            final(self).max_module_len >= old(self).max_module_len,
            final(self).max_level_name_len == old(self).max_level_name_len,
    {
        if len > self.max_module_len {
            self.max_module_len = len;
        }
    }
}

} // verus!
