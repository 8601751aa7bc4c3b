//! The handle to the helper binary.
use std::path::PathBuf;
use std::sync::Arc;
use std::time::Duration;
use tokio::sync::Semaphore;
use vstd::prelude::*;

use crate::error::{Error, ErrorView};
use crate::locate::{
    bundled_helper, env_path, first_file, helper_in, is_empty_path, path_of, read_env_path,
    resolve_bundled, search_paths, FileStatus, SearchPlaces, BINARY_ENV_VAR, BINARY_NAME,
};

verus! {

/// The counting semaphore of `tokio`.
#[verifier::external_type_specification]
#[verifier::external_body]
pub struct ExSemaphore(tokio::sync::Semaphore);

/// How many permits a semaphore was made with.
pub uninterp spec fn permit_budget(semaphore: tokio::sync::Semaphore) -> nat;

/// The duration of so many whole seconds.
pub uninterp spec fn whole_seconds(secs: u64) -> std::time::Duration;

/// `tokio::sync::Semaphore::new`: a semaphore with so many permits. It panics above its
/// `MAX_PERMITS`, an eighth of `usize::MAX`.
pub assume_specification[ tokio::sync::Semaphore::new ](permits: usize) -> (r:
    tokio::sync::Semaphore)
    requires
        permits <= usize::MAX / 8,
    ensures
        permit_budget(r) == permits,
;

/// `tokio::sync::Semaphore::available_permits`: how many permits are free at this moment. Nothing
/// fixes the number but that moment; the count is kept in all but one bit of a `usize`.
pub assume_specification[ tokio::sync::Semaphore::available_permits ](
    semaphore: &tokio::sync::Semaphore,
) -> (r: usize)
    ensures
        r <= usize::MAX / 2,
;

/// `std::time::Duration::from_secs`: the duration of so many whole seconds.
pub assume_specification[ std::time::Duration::from_secs ](secs: u64) -> (r: std::time::Duration)
    ensures
        r == whole_seconds(secs),
;

/// How many helper processes a fresh [`Bridge`] runs at once.
///
/// One, deliberately: the on-device model is a shared, memory-hungry resource, so fanning out is
/// something you opt into with [`Bridge::max_concurrency`] rather than something you get by
/// accident.
pub const DEFAULT_MAX_CONCURRENCY: usize = 1;

/// A handle to the helper binary.
///
/// Cloning is cheap, and **clones share one concurrency budget**: the limit set by
/// [`max_concurrency`](Self::max_concurrency) applies across every clone. Call `max_concurrency`
/// on a clone to give it a separate budget instead.
#[derive(Debug)]
pub struct Bridge {
    binary: PathBuf,
    timeout: Option<Duration>,
    limit: usize,
    /// Shared across clones so the limit is global rather than per-handle.
    limiter: Arc<Semaphore>,
}

/// A [`Bridge`] as a mathematical value.
pub struct BridgeView {
    /// The helper binary.
    pub binary: PathBuf,
    /// How long a request may take.
    pub timeout: Option<Duration>,
    /// How many requests may run at once.
    pub limit: usize,
    /// What hands out the slots.
    pub limiter: Semaphore,
}

impl View for Bridge {
    type V = BridgeView;

    closed spec fn view(&self) -> BridgeView {
        BridgeView {
            binary: self.binary,
            timeout: self.timeout,
            limit: self.limit,
            limiter: *self.limiter,
        }
    }
}

/// Whether a bridge is one that was just pointed at `binary`: five minutes for a request, and one
/// request at a time.
pub open spec fn is_fresh(b: BridgeView, binary: PathBuf) -> bool {
    &&& b.binary == binary
    &&& b.timeout == Some(whole_seconds(300))
    &&& b.limit == DEFAULT_MAX_CONCURRENCY
    &&& has_own_budget(b)
}

/// Whether the limiter of a bridge came out of `Semaphore::new` with as many permits as the limit
/// says: a budget of its own, rather than one taken over from another bridge.
pub open spec fn has_own_budget(b: BridgeView) -> bool {
    &&& call_ensures(Semaphore::new, (b.limit,), b.limiter)
    &&& permit_budget(b.limiter) == b.limit
}

impl Bridge {
    /// There is at least one slot, and the limiter was made with as many permits as the limit
    /// says.
    #[verifier::type_invariant]
    spec fn budget_matches_limit(self) -> bool {
        self.limit >= 1 && permit_budget(*self.limiter) == self.limit
    }

    /// Points the bridge at a helper binary.
    ///
    /// Concurrency defaults to [`DEFAULT_MAX_CONCURRENCY`] (one request at a time); use
    /// [`max_concurrency`](Self::max_concurrency) to raise it.
    pub fn new(binary: PathBuf) -> (r: Self)
        ensures
            is_fresh(r@, binary),
    {
        Bridge {
            binary,
            timeout: Some(Duration::from_secs(300)),
            limit: DEFAULT_MAX_CONCURRENCY,
            limiter: Arc::new(Semaphore::new(DEFAULT_MAX_CONCURRENCY)),
        }
    }

    /// Takes the helper path from a value of the environment variable [`BINARY_ENV_VAR`].
    pub fn from_env_value(raw: Option<PathBuf>) -> (r: Result<Self, Error>)
        ensures
            match raw {
                Some(path) => if is_empty_path(path) {
                    r matches Err(error) && error@ == ErrorView::Protocol(
                        BINARY_ENV_VAR@ + " is set but empty"@,
                    )
                } else {
                    r matches Ok(bridge) && is_fresh(bridge@, path)
                },
                None => r matches Err(error) && error@ == ErrorView::Protocol(
                    BINARY_ENV_VAR@ + " is not set"@,
                ),
            },
    {
        match read_env_path(raw) {
            Ok(path) => Ok(Self::new(path)),
            Err(error) => Err(error),
        }
    }

    /// Locates a helper embedded in the running `.app` bundle.
    ///
    /// **This is the constructor to use in shipped applications.** It resolves the helper strictly
    /// relative to the directory of the running executable: there, and then in `Resources` beside
    /// it. `status` says what the file system holds at each of
    /// [`bundle_candidates`](crate::locate::bundle_candidates).
    pub fn bundled(exe_dir: Option<&PathBuf>, status: &Vec<FileStatus>) -> (r: Result<Self, Error>)
        ensures
            match exe_dir {
                Some(dir) => match bundled_helper(*dir, status@) {
                    Some(path) => r matches Ok(bridge) && is_fresh(bridge@, path),
                    None => r matches Err(error) && error@ == ErrorView::BinaryNotFound(
                        helper_in(*dir),
                    ),
                },
                None => r matches Err(error) && error@ == ErrorView::Protocol(
                    "executable has no parent directory"@,
                ),
            },
    {
        match exe_dir {
            Some(dir) => match resolve_bundled(dir, status) {
                Ok(path) => Ok(Self::new(path)),
                Err(error) => Err(error),
            },
            None => Err(Error::Protocol("executable has no parent directory".to_string())),
        }
    }

    /// Locates the helper automatically, for development and CLI use.
    ///
    /// Checks, in order: what the environment variable [`BINARY_ENV_VAR`] names (`env`, with whether
    /// it exists), the `swift/.build` directories under the working directory, the directory
    /// holding the running executable, and finally the search path. `is_file` says of each of
    /// [`SearchPlaces::candidates`] whether a file is there.
    ///
    /// Prefer [`bundled`](Self::bundled) in a shipped `.app`; this function trusts environment
    /// state that an end user's machine may not control.
    pub fn discover(
        env: Option<PathBuf>,
        env_exists: bool,
        places: &SearchPlaces,
        is_file: &Vec<bool>,
    ) -> (r: Result<Self, Error>)
        ensures
            if env_path(env) is Some && env_exists {
                r matches Ok(bridge) && is_fresh(bridge@, env_path(env)->0)
            } else {
                match first_file(is_file@, search_paths(*places).len() as int) {
                    Some(at) => r matches Ok(bridge) && is_fresh(
                        bridge@,
                        search_paths(*places)[at],
                    ),
                    None => r matches Err(error) && error@ == ErrorView::BinaryNotFound(
                        path_of(BINARY_NAME@),
                    ),
                }
            },
    {
        if let Ok(bridge) = Self::from_env_value(env) {
            if env_exists {
                return Ok(bridge);
            }
        }
        match places.first_found(is_file) {
            Ok(path) => Ok(Self::new(path)),
            Err(error) => Err(error),
        }
    }

    /// Path to the helper binary.
    pub fn binary_path(&self) -> (r: &PathBuf)
        ensures
            *r == self@.binary,
    {
        &self.binary
    }

    /// Sets a wall-clock timeout for each request. `None` disables it.
    ///
    /// The clock starts when a request is made, not when a helper process finally starts. Time
    /// spent queued behind the concurrency limit therefore counts against the timeout, so a
    /// saturated bridge reports [`Error::Timeout`] instead of making callers wait indefinitely.
    pub fn timeout(self, timeout: Option<Duration>) -> (r: Self)
        ensures
            r@ == (BridgeView { timeout, ..self@ }),
    {
        proof {
            use_type_invariant(&self);
        }
        Bridge { timeout, ..self }
    }

    /// The configured timeout.
    pub fn time_limit(&self) -> (r: Option<Duration>)
        ensures
            r == self@.timeout,
    {
        self.timeout
    }

    /// Limits how many requests may run at the same time.
    ///
    /// Calls beyond the limit **queue** rather than fail. A limit of `0` is treated as `1`, since
    /// a bridge that can never run anything is never what the caller meant.
    ///
    /// The budget is a new one: it is shared by every clone made *after* this call, and with no
    /// bridge that was there before.
    pub fn max_concurrency(self, limit: usize) -> (r: Self)
        requires
            limit <= usize::MAX / 8,
        ensures
            r@.limit == if limit == 0 {
                1
            } else {
                limit
            },
            has_own_budget(r@),
            r@ == (BridgeView { limit: r@.limit, limiter: r@.limiter, ..self@ }),
    {
        let limit: usize = if limit < 1 {
            1
        } else {
            limit
        };
        Bridge {
            binary: self.binary,
            timeout: self.timeout,
            limit,
            limiter: Arc::new(Semaphore::new(limit)),
        }
    }

    /// The configured concurrency limit: at least one, and as many as there are permits.
    pub fn max_concurrency_limit(&self) -> (r: usize)
        ensures
            r == self@.limit,
            r >= 1,
            permit_budget(self@.limiter) == r,
    {
        proof {
            use_type_invariant(&*self);
        }
        self.limit
    }

    /// How many slots are free right now.
    ///
    /// Purely informational: by the time you act on it another task may have taken a slot. The
    /// number is one that the limiter gave when it was asked.
    pub fn available_slots(&self) -> (r: usize)
        ensures
            call_ensures(Semaphore::available_permits, (&self@.limiter,), r),
    {
        self.limiter.available_permits()
    }

    /// What hands out the slots, to wait on.
    pub fn limiter(&self) -> (r: Arc<Semaphore>)
        ensures
            *r == self@.limiter,
    {
        self.limiter.clone()
    }
}

impl Clone for Bridge {
    /// A handle that shares the budget of this one.
    fn clone(&self) -> (r: Self)
        ensures
            r@ == self@,
    {
        proof {
            use_type_invariant(&*self);
        }
        Bridge {
            binary: self.binary.clone(),
            timeout: self.timeout,
            limit: self.limit,
            limiter: self.limiter.clone(),
        }
    }
}

} // verus!
