//! Single-instance guard: at most one running instance per machine.
//!
//! The lock is a file named after the application in the temporary
//! directory. How the operating system is asked for it depends on the
//! platform ([`LockStrategy`]); what each answer means is decided here. The
//! lock namespace itself is modelled by [`LockStore`], which also serves as an
//! in-process lock table.
use vstd::prelude::*;

verus! {

/// What `str::to_lowercase` returns for a string.
pub uninterp spec fn lower_of(s: Seq<char>) -> Seq<char>;

/// Relies on `str::to_lowercase`: the result depends on the characters
/// alone, and an empty string stays empty.
#[verifier::external_body]
fn to_lower(s: &str) -> (r: String)
    ensures
        r@ == lower_of(s@),
        s@.len() == 0 ==> r@.len() == 0,
{
    s.to_lowercase()
}

/// `s` with every space replaced by a hyphen.
pub open spec fn hyphenated(s: Seq<char>) -> Seq<char> {
    s.map_values(|c: char| if c == ' ' { '-' } else { c })
}

/// File name of the lock of the application called `app_name`.
pub open spec fn lock_name_spec(app_name: Seq<char>) -> Seq<char> {
    lower_of(hyphenated(app_name)) + ".lock"@
}

/// Replaces every space of `s` with a hyphen.
pub fn hyphenate_spaces(s: &str) -> (r: String)
    ensures
        r@ == hyphenated(s@),
{
    let n = s.unicode_len();
    let mut r = String::new();
    let mut start: usize = 0;
    let mut i: usize = 0;
    while i < n
        invariant
            n == s@.len(),
            start <= i <= n,
            r@ == hyphenated(s@.subrange(0, start as int)),
            forall|j: int| start <= j < i ==> s@[j] != ' ',
        decreases n - i,
    {
        if s.get_char(i) == ' ' {
            let seg = s.substring_char(start, i);
            r.append(seg);
            r.append("-");
            proof {
                reveal_strlit("-");
                assert(hyphenated(s@.subrange(0, i + 1)) =~= hyphenated(s@.subrange(0, start as int))
                    + s@.subrange(start as int, i as int) + "-"@);
            }
            start = i + 1;
        }
        i = i + 1;
    }
    let seg = s.substring_char(start, n);
    r.append(seg);
    assert(s@.subrange(0, n as int) =~= s@);
    assert(hyphenated(s@) =~= hyphenated(s@.subrange(0, start as int)) + s@.subrange(
        start as int,
        n as int,
    ));
    r
}

/// Appends the lock file extension to an already normalised name.
pub fn lock_name_from_normalized(normalized: &str) -> (r: String)
    ensures
        r@ == normalized@ + ".lock"@,
{
    let mut r = normalized.to_string();
    r.append(".lock");
    r
}

/// The lock file name of an application: its name with spaces turned into
/// hyphens, lower-cased, with the `.lock` extension.
pub fn lock_file_name(app_name: &str) -> (r: String)
    ensures
        r@ == lock_name_spec(app_name@),
{
    let hyphens = hyphenate_spaces(app_name);
    let lowered = to_lower(hyphens.as_str());
    lock_name_from_normalized(lowered.as_str())
}

/// Why the lock could not be taken.
#[derive(Clone, Debug, PartialEq, Eq)]
pub enum LockError {
    /// Another process holds the lock.
    InstanceAlreadyRunning,
    /// The lock resource could not be created or opened; holds the cause.
    LockIoError(String),
}

impl LockError {
    pub open spec fn message_spec(&self) -> Seq<char> {
        match self {
            LockError::InstanceAlreadyRunning => "Another instance is already running"@,
            LockError::LockIoError(cause) => "Failed to open lock file: "@ + cause@,
        }
    }

    /// A human-readable description of the error.
    pub fn message(&self) -> (r: String)
        ensures
            r@ == self.message_spec(),
    {
        match self {
            LockError::InstanceAlreadyRunning => "Another instance is already running".to_string(),
            LockError::LockIoError(cause) => {
                let mut r = "Failed to open lock file: ".to_string();
                r.append(cause.as_str());
                r
            },
        }
    }
}

/// How a platform takes the lock.
#[derive(Clone, Copy, Debug, PartialEq, Eq, Structural)]
pub enum LockStrategy {
    /// Open or create the file, then take an exclusive, non-blocking
    /// advisory lock on it (POSIX `flock`).
    Advisory,
    /// Open the file for writing and take a failure to open as contention.
    /// Weaker than an advisory lock: it does not reliably detect a lock
    /// left behind by a crashed process.
    ExclusiveOpen,
    /// Best effort where no native primitive exists: the lock is held if the
    /// file exists. Two processes racing between the check and the creation
    /// may both succeed.
    ExistenceCheck,
}

/// What the operating system answered when asked for the lock.
#[derive(Debug, PartialEq, Eq)]
pub struct LockObservation {
    /// Whether the lock file existed before it was opened.
    pub existed: bool,
    /// Opening or creating the file, with the cause of a failure.
    pub opened: Result<(), String>,
    /// The return code of the advisory lock call; zero means it was taken.
    pub lock_rc: i32,
}

/// The outcome of a lock attempt under `strategy`, given what was observed.
pub open spec fn attempt_spec(strategy: LockStrategy, obs: LockObservation) -> Result<(), LockError> {
    match strategy {
        LockStrategy::Advisory => match obs.opened {
            Err(cause) => Err(LockError::LockIoError(cause)),
            Ok(_) => if obs.lock_rc != 0 {
                Err(LockError::InstanceAlreadyRunning)
            } else {
                Ok(())
            },
        },
        LockStrategy::ExclusiveOpen => match obs.opened {
            Err(_) => Err(LockError::InstanceAlreadyRunning),
            Ok(_) => Ok(()),
        },
        LockStrategy::ExistenceCheck => if obs.existed {
            Err(LockError::InstanceAlreadyRunning)
        } else {
            match obs.opened {
                Err(cause) => Err(LockError::LockIoError(cause)),
                Ok(_) => Ok(()),
            }
        },
    }
}

/// Decides whether a lock attempt succeeded. Under `ExistenceCheck` the file
/// is only opened when it did not exist, and under `Advisory` the lock call
/// is only made once the file is open; the fields not consulted are ignored.
pub fn attempt_outcome(strategy: LockStrategy, obs: LockObservation) -> (r: Result<(), LockError>)
    ensures
        r == attempt_spec(strategy, obs),
{
    match strategy {
        LockStrategy::Advisory => match obs.opened {
            Err(cause) => Err(LockError::LockIoError(cause)),
            Ok(_) => if obs.lock_rc != 0 {
                Err(LockError::InstanceAlreadyRunning)
            } else {
                Ok(())
            },
        },
        LockStrategy::ExclusiveOpen => match obs.opened {
            Err(_) => Err(LockError::InstanceAlreadyRunning),
            Ok(_) => Ok(()),
        },
        LockStrategy::ExistenceCheck => if obs.existed {
            Err(LockError::InstanceAlreadyRunning)
        } else {
            match obs.opened {
                Err(cause) => Err(LockError::LockIoError(cause)),
                Ok(_) => Ok(()),
            }
        },
    }
}

/// The identifiers named by `v`.
pub open spec fn ids_of(v: Seq<String>) -> Set<Seq<char>> {
    Set::new(|id: Seq<char>| exists|i: int| 0 <= i < v.len() && v[i]@ == id)
}

/// Whether a lock on `id` can be taken while `held` are held.
pub open spec fn acquire_succeeds(held: Set<Seq<char>>, id: Seq<char>) -> bool {
    !held.contains(id)
}

/// The held locks after an attempt on `id`.
pub open spec fn after_acquire(held: Set<Seq<char>>, id: Seq<char>) -> Set<Seq<char>> {
    if acquire_succeeds(held, id) {
        held.insert(id)
    } else {
        held
    }
}

/// The held locks after a guard of `id` is released; only a guard that still
/// held its lock gives it up.
pub open spec fn after_release(held: Set<Seq<char>>, id: Seq<char>, guard_held: bool) -> Set<
    Seq<char>,
> {
    if guard_held {
        held.remove(id)
    } else {
        held
    }
}

proof fn lemma_ids_push(v: Seq<String>, x: String)
    ensures
        ids_of(v.push(x)) == ids_of(v).insert(x@),
{
    let w = v.push(x);
    assert forall|id: Seq<char>| ids_of(w).contains(id) implies ids_of(v).insert(x@).contains(id) by {
        let i = choose|i: int| 0 <= i < w.len() && w[i]@ == id;
        if i < v.len() {
            assert(v[i]@ == id);
        }
    }
    assert forall|id: Seq<char>| ids_of(v).insert(x@).contains(id) implies ids_of(w).contains(id) by {
        if id == x@ {
            assert(w[v.len() as int]@ == id);
        } else {
            let i = choose|i: int| 0 <= i < v.len() && v[i]@ == id;
            assert(w[i]@ == id);
        }
    }
    assert(ids_of(w) =~= ids_of(v).insert(x@));
}

/// A table of exclusively held, named locks: the lock namespace of one
/// machine, each name held by at most one owner.
pub struct LockStore {
    held: Vec<String>,
}

impl LockStore {
    pub closed spec fn view(&self) -> Set<Seq<char>> {
        ids_of(self.held@)
    }

    pub fn new() -> (r: Self)
        ensures
            r@ == Set::<Seq<char>>::empty(),
    {
        let r = LockStore { held: Vec::new() };
        assert(r@ =~= Set::<Seq<char>>::empty());
        r
    }

    fn index_of(&self, id: &String) -> (r: Option<usize>)
        ensures
            r matches Some(i) ==> i < self.held@.len() && self.held@[i as int]@ == id@,
            r is None ==> !self@.contains(id@),
    {
        let mut i: usize = 0;
        while i < self.held.len()
            invariant
                i <= self.held@.len(),
                forall|j: int| 0 <= j < i ==> self.held@[j]@ != id@,
            decreases self.held@.len() - i,
        {
            if self.held[i] == *id {
                return Some(i);
            }
            i = i + 1;
        }
        None
    }

    /// Whether a lock on `id` is held.
    pub fn is_locked(&self, id: &str) -> (r: bool)
        ensures
            r == self@.contains(id@),
    {
        let key = id.to_string();
        self.index_of(&key).is_some()
    }

    /// Takes the lock on `id` unless it is already held.
    pub fn try_lock(&mut self, id: &str) -> (r: Result<(), LockError>)
        ensures
            r is Ok <==> acquire_succeeds(old(self)@, id@),
            r is Err ==> r == Err::<(), LockError>(LockError::InstanceAlreadyRunning),
            final(self)@ == after_acquire(old(self)@, id@),
    {
        let key = id.to_string();
        match self.index_of(&key) {
            Some(_) => Err(LockError::InstanceAlreadyRunning),
            None => {
                proof {
                    lemma_ids_push(self.held@, key);
                }
                self.held.push(key);
                Ok(())
            },
        }
    }

    /// Gives up the lock on `id`; nothing changes if it is not held.
    pub fn unlock(&mut self, id: &str)
        ensures
            final(self)@ == old(self)@.remove(id@),
    {
        let key = id.to_string();
        let mut kept: Vec<String> = Vec::new();
        let mut i: usize = 0;
        assert(ids_of(kept@) =~= ids_of(self.held@.take(0)).remove(id@));
        while i < self.held.len()
            invariant
                i <= self.held@.len(),
                key@ == id@,
                ids_of(kept@) == ids_of(self.held@.take(i as int)).remove(id@),
            decreases self.held@.len() - i,
        {
            proof {
                assert(self.held@.take(i + 1) =~= self.held@.take(i as int).push(self.held@[i as int]));
                lemma_ids_push(self.held@.take(i as int), self.held@[i as int]);
            }
            if self.held[i] != key {
                let item = self.held[i].clone();
                proof {
                    lemma_ids_push(kept@, item);
                }
                kept.push(item);
                assert(ids_of(kept@) =~= ids_of(self.held@.take(i + 1)).remove(id@));
            } else {
                assert(ids_of(kept@) =~= ids_of(self.held@.take(i + 1)).remove(id@));
            }
            i = i + 1;
        }
        assert(self.held@.take(i as int) =~= self.held@);
        self.held = kept;
    }

    /// Takes the lock of the application called `app_name` and returns the
    /// guard that owns it.
    pub fn acquire(&mut self, app_name: &str) -> (r: Result<SingleInstance, LockError>)
        ensures
            r is Ok <==> acquire_succeeds(old(self)@, lock_name_spec(app_name@)),
            final(self)@ == after_acquire(old(self)@, lock_name_spec(app_name@)),
            match r {
                Ok(g) => g.lock_id() == lock_name_spec(app_name@) && g.is_held(),
                Err(e) => e == LockError::InstanceAlreadyRunning,
            },
    {
        let name = lock_file_name(app_name);
        match self.try_lock(name.as_str()) {
            Ok(()) => Ok(SingleInstance { lock_name: name, held: true }),
            Err(e) => Err(e),
        }
    }

    /// Releases `guard`: the first call gives up its lock and returns `true`;
    /// later calls change nothing and return `false`.
    pub fn release(&mut self, guard: &mut SingleInstance) -> (r: bool)
        ensures
            r == old(guard).is_held(),
            !final(guard).is_held(),
            final(guard).lock_id() == old(guard).lock_id(),
            final(self)@ == after_release(old(self)@, old(guard).lock_id(), r),
    {
        let r = guard.release();
        if r {
            self.unlock(guard.lock_name.as_str());
        }
        r
    }
}

/// Owns the application's lock from a successful acquisition until it is
/// released. Releasing is idempotent.
pub struct SingleInstance {
    lock_name: String,
    held: bool,
}

impl SingleInstance {
    /// Identifier of the lock, which is also the lock file's name.
    pub closed spec fn lock_id(&self) -> Seq<char> {
        self.lock_name@
    }

    pub closed spec fn is_held(&self) -> bool {
        self.held
    }

    /// Builds the guard of the application called `app_name` from the outcome
    /// of the platform's attempt to take its lock.
    pub fn new(app_name: &str, attempt: Result<(), LockError>) -> (r: Result<Self, LockError>)
        ensures
            r is Ok <==> attempt is Ok,
            match r {
                Ok(g) => g.lock_id() == lock_name_spec(app_name@) && g.is_held(),
                Err(e) => attempt == Err::<(), LockError>(e),
            },
    {
        match attempt {
            Ok(()) => Ok(SingleInstance { lock_name: lock_file_name(app_name), held: true }),
            Err(e) => Err(e),
        }
    }

    pub fn lock_name(&self) -> (r: &str)
        ensures
            r@ == self.lock_id(),
    {
        self.lock_name.as_str()
    }

    pub fn holds_lock(&self) -> (r: bool)
        ensures
            r == self.is_held(),
    {
        self.held
    }

    /// Marks the lock as given up. Returns `true` only on the first call,
    /// when the caller must flush, unlock and remove the lock file.
    pub fn release(&mut self) -> (r: bool)
        ensures
            r == old(self).is_held(),
            !final(self).is_held(),
            final(self).lock_id() == old(self).lock_id(),
    {
        let r = self.held;
        self.held = false;
        r
    }
}

/// Of two successive attempts on the same application name at most one
/// succeeds, and when no instance runs yet exactly one does: the second
/// receives `InstanceAlreadyRunning`.
pub proof fn lemma_mutual_exclusion(held: Set<Seq<char>>, app_name: Seq<char>)
    ensures
        ({
            let id = lock_name_spec(app_name);
            &&& !(acquire_succeeds(held, id) && acquire_succeeds(after_acquire(held, id), id))
            &&& !held.contains(id) ==> acquire_succeeds(held, id) && !acquire_succeeds(
                after_acquire(held, id),
                id,
            )
        }),
{
}

/// Releasing a guard twice changes nothing the second time, and once it is
/// released the same application can take its lock again.
pub proof fn lemma_release_idempotent(held: Set<Seq<char>>, app_name: Seq<char>)
    requires
        !held.contains(lock_name_spec(app_name)),
    ensures
        ({
            let id = lock_name_spec(app_name);
            let locked = after_acquire(held, id);
            let once = after_release(locked, id, true);
            let twice = after_release(once, id, false);
            &&& twice == once
            &&& acquire_succeeds(twice, id)
        }),
{
}

} // verus!
