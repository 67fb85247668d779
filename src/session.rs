use vstd::prelude::*;
use crate::apply::{Apply, ApplyResult};
use crate::error::Error;
use crate::event::{spec_relevant, WatchEvent};
use crate::loader::{spec_file_error, FileFailure, OpenFailure};
use crate::target::{parent_dir, WatchTarget};

verus! {

/// Where a session stands: created, first load done, or watching the file.
#[derive(Debug, Clone, Copy, PartialEq, Eq)]
pub enum Phase {
    Uninitialized,
    Loaded,
    Watching,
}

/// What came of one change event.
#[derive(Debug, Clone, PartialEq, Eq)]
pub enum Reaction {
    /// The event did not concern the followed file, or the session is not
    /// watching yet: nothing was loaded.
    Ignored,
    /// The file was loaded and the configuration took the new data.
    Reloaded,
    /// The reload failed; the previous configuration stays in force.
    Failed(Error),
}

/// The data in force after a load attempt with outcome `loaded`, which the
/// configuration `accepted` or not: the new data only when it was both
/// loaded and accepted, the data in force before otherwise.
pub open spec fn spec_after_load<D>(live: Option<D>, loaded: Result<D, Error>, accepted: bool) -> Option<D> {
    if loaded is Ok && accepted {
        Some(loaded->Ok_0)
    } else {
        live
    }
}

/// The number of data values handed to the configuration after a load
/// attempt: one more exactly when something was loaded.
pub open spec fn spec_applies_after<D>(applies: nat, loaded: Result<D, Error>) -> nat {
    if loaded is Ok {
        applies + 1
    } else {
        applies
    }
}

/// `res` is what handing `data` to `config` can come to: `Ok` exactly when
/// the configuration's `apply` took the data, and the configuration's own
/// message as an `Apply` error when it refused it.
pub open spec fn spec_applied_by<D, C: Apply<D>>(config: &C, data: D, res: Result<(), Error>) -> bool {
    exists|a: ApplyResult| {
        &&& #[trigger] call_ensures(C::apply, (config, data), a)
        &&& (a is Ok <==> res is Ok)
        &&& (a matches Err(m) ==> res == Err::<(), Error>(Error::Apply(m)))
    }
}

/// The outcome a reaction reports, `Ok` for one that loaded nothing.
pub open spec fn spec_outcome(r: Reaction) -> Result<(), Error> {
    match r {
        Reaction::Failed(e) => Err(e),
        _ => Ok(()),
    }
}

/// The phase after the first load: `Loaded` when it succeeded, else still
/// `Uninitialized`.
pub open spec fn spec_phase_after_initial(succeeded: bool) -> Phase {
    if succeeded {
        Phase::Loaded
    } else {
        Phase::Uninitialized
    }
}

/// The decisions of a live-reloading configuration for one file.
///
/// A session is created for a path, loads it once, then watches it; each
/// relevant change loads the file again and hands the data to the same
/// configuration. `D` is the parsed data; the session keeps, as ghost state,
/// the data last accepted by the configuration and how many were handed to it.
pub struct ReloadSession<D> {
    target: WatchTarget,
    phase: Phase,
    live: Ghost<Option<D>>,
    applies: Ghost<nat>,
}

impl<D> ReloadSession<D> {
    pub closed spec fn spec_target(&self) -> WatchTarget {
        self.target
    }

    pub closed spec fn spec_phase(&self) -> Phase {
        self.phase
    }

    /// The data last accepted by the configuration, if any.
    pub closed spec fn spec_live(&self) -> Option<D> {
        self.live@
    }

    /// How many data values were handed to the configuration.
    pub closed spec fn spec_applies(&self) -> nat {
        self.applies@
    }

    /// Whether `event` calls for a reload in this session.
    pub open spec fn spec_wants(&self, event: WatchEvent) -> bool {
        &&& self.spec_phase() is Watching
        &&& spec_relevant(event.kind, event.spec_paths(), self.spec_target().spec_file())
    }

    /// Starts a session for the file at `path`. Fails with `NoParent`, before
    /// anything is read, when the path has no directory part.
    pub fn new(path: &str) -> (r: Result<ReloadSession<D>, Error>)
        ensures
            r is Err <==> parent_dir(path@) is None,
            r is Err ==> r->Err_0 == Error::NoParent,
            r matches Ok(s) ==> {
                &&& s.spec_target().spec_file() == path@
                &&& Some(s.spec_target().spec_dir()) == parent_dir(path@)
                &&& s.spec_phase() is Uninitialized
                &&& s.spec_live() is None
                &&& s.spec_applies() == 0
            },
    {
        match WatchTarget::new(path) {
            Err(e) => Err(e),
            Ok(target) => Ok(ReloadSession {
                target,
                phase: Phase::Uninitialized,
                live: Ghost(None),
                applies: Ghost(0),
            }),
        }
    }

    /// The file and directory this session follows.
    pub fn target(&self) -> (r: &WatchTarget)
        ensures
            *r == self.spec_target(),
    {
        &self.target
    }

    /// Where the session stands.
    pub fn phase(&self) -> (r: Phase)
        ensures
            r == self.spec_phase(),
    {
        self.phase
    }

    /// Hands loaded data to the configuration; a load failure is passed on
    /// without touching it.
    fn apply_loaded<C: Apply<D>>(&mut self, config: &C, loaded: Result<D, Error>) -> (r: Result<(), Error>)
        ensures
            final(self).spec_target() == old(self).spec_target(),
            final(self).spec_phase() == old(self).spec_phase(),
            final(self).spec_live() == spec_after_load(old(self).spec_live(), loaded, r is Ok),
            final(self).spec_applies() == spec_applies_after(old(self).spec_applies(), loaded),
            loaded matches Err(e) ==> r == Err::<(), Error>(e),
            loaded matches Ok(d) ==> spec_applied_by(config, d, r),
    {
        match loaded {
            Err(e) => Err(e),
            Ok(data) => {
                let ghost accepted = data;
                self.applies = Ghost(self.applies@ + 1);
                let res = config.apply(data);
                match res {
                    Ok(()) => {
                        self.live = Ghost(Some(accepted));
                        Ok(())
                    },
                    Err(m) => Err(Error::Apply(m)),
                }
            },
        }
    }

    /// The first load: hands `loaded` to the freshly made configuration.
    /// Any failure is returned and leaves the session unloaded, so that no
    /// watch can be set up.
    pub fn initial_load<C: Apply<D>>(&mut self, config: &C, loaded: Result<D, Error>) -> (r: Result<(), Error>)
        requires
            old(self).spec_phase() is Uninitialized,
        ensures
            final(self).spec_target() == old(self).spec_target(),
            final(self).spec_phase() == spec_phase_after_initial(r is Ok),
            final(self).spec_live() == spec_after_load(old(self).spec_live(), loaded, r is Ok),
            final(self).spec_applies() == spec_applies_after(old(self).spec_applies(), loaded),
            loaded matches Err(e) ==> r == Err::<(), Error>(e),
            loaded matches Ok(d) ==> spec_applied_by(config, d, r),
    {
        let r = self.apply_loaded(config, loaded);
        if r.is_ok() {
            self.phase = Phase::Loaded;
        }
        r
    }

    /// Records the outcome of registering the watch on the directory: the
    /// session watches from now on, or the failure is returned as `Notify`.
    pub fn start_watching(&mut self, registered: Result<(), String>) -> (r: Result<(), Error>)
        requires
            old(self).spec_phase() is Loaded,
        ensures
            final(self).spec_target() == old(self).spec_target(),
            final(self).spec_live() == old(self).spec_live(),
            final(self).spec_applies() == old(self).spec_applies(),
            registered is Ok ==> r is Ok && final(self).spec_phase() is Watching,
            registered matches Err(m) ==> r == Err::<(), Error>(Error::Notify(m))
                && final(self).spec_phase() is Loaded,
    {
        match registered {
            Ok(()) => {
                self.phase = Phase::Watching;
                Ok(())
            },
            Err(m) => Err(Error::Notify(m)),
        }
    }

    /// Whether `event` calls for a reload: the session is watching and the
    /// event is a modification or creation of exactly the followed file.
    pub fn wants_reload(&self, event: &WatchEvent) -> (r: bool)
        ensures
            r == self.spec_wants(*event),
    {
        match self.phase {
            Phase::Watching => event.is_relevant(self.target.file()),
            _ => false,
        }
    }

    /// A reload while watching: hands `loaded` to the live configuration.
    /// A failure leaves the data in force unchanged and the watch running.
    pub fn reload<C: Apply<D>>(&mut self, config: &C, loaded: Result<D, Error>) -> (r: Result<(), Error>)
        requires
            old(self).spec_phase() is Watching,
        ensures
            final(self).spec_target() == old(self).spec_target(),
            final(self).spec_phase() is Watching,
            final(self).spec_live() == spec_after_load(old(self).spec_live(), loaded, r is Ok),
            final(self).spec_applies() == spec_applies_after(old(self).spec_applies(), loaded),
            loaded matches Err(e) ==> r == Err::<(), Error>(e),
            loaded matches Ok(d) ==> spec_applied_by(config, d, r),
    {
        self.apply_loaded(config, loaded)
    }

    /// Handles one change event: when it calls for a reload, runs `load` once
    /// and hands what it gives to the configuration; otherwise runs nothing.
    /// The whole load and apply happen within this one exclusive call.
    pub fn on_event<C: Apply<D>, F: FnOnce() -> Result<D, Error>>(
        &mut self,
        config: &C,
        event: &WatchEvent,
        load: F,
    ) -> (r: Reaction)
        requires
            load.requires(()),
        ensures
            final(self).spec_target() == old(self).spec_target(),
            final(self).spec_phase() == old(self).spec_phase(),
            final(self).spec_applies() <= old(self).spec_applies() + 1,
            !old(self).spec_wants(*event) ==> {
                &&& r is Ignored
                &&& final(self).spec_live() == old(self).spec_live()
                &&& final(self).spec_applies() == old(self).spec_applies()
            },
            old(self).spec_wants(*event) ==> exists|loaded: Result<D, Error>| {
                &&& #[trigger] load.ensures((), loaded)
                &&& final(self).spec_live() == spec_after_load(old(self).spec_live(), loaded, r is Reloaded)
                &&& final(self).spec_applies() == spec_applies_after(old(self).spec_applies(), loaded)
                &&& !(r is Ignored)
                &&& (loaded matches Err(e) ==> r == Reaction::Failed(e))
                &&& (loaded matches Ok(d) ==> spec_applied_by(config, d, spec_outcome(r)))
            },
    {
        if !self.wants_reload(event) {
            return Reaction::Ignored;
        }
        let loaded = load();
        match self.reload(config, loaded) {
            Ok(()) => Reaction::Reloaded,
            Err(e) => Reaction::Failed(e),
        }
    }
}

/// A missing file is never loaded: its read failure is reported as
/// `NotFound`, that error is what the first load returns, nothing is handed to
/// the configuration, and the session stays unloaded, so no watch is set up.
pub proof fn lemma_missing_file_fails<D>(message: String, live: Option<D>, applies: nat)
    ensures
        spec_file_error(FileFailure::Open(OpenFailure::NotFound, message)) == Error::NotFound(message),
        forall|accepted: bool|
            spec_after_load(live, Err::<D, Error>(Error::NotFound(message)), accepted) == live,
        spec_applies_after(applies, Err::<D, Error>(Error::NotFound(message))) == applies,
        spec_phase_after_initial(false) is Uninitialized,
{
}

/// After a successful first load of `data` the configuration holds exactly
/// that data, not the state it was made in, and the session is loaded.
pub proof fn lemma_initial_load_authoritative<D>(data: D)
    ensures
        spec_after_load(None, Ok::<D, Error>(data), true) == Some(data),
        spec_phase_after_initial(true) is Loaded,
{
}

/// A reload that fails, to read, to parse or to be applied, leaves the data
/// in force as it was.
pub proof fn lemma_failed_reload_keeps_live<D>(live: Option<D>, error: Error, data: D)
    ensures
        forall|accepted: bool| spec_after_load(live, Err::<D, Error>(error), accepted) == live,
        spec_after_load(live, Ok::<D, Error>(data), false) == live,
{
}

/// A reload whose data is loaded and accepted puts that data in force,
/// whatever was in force before.
pub proof fn lemma_good_reload_takes_effect<D>(live: Option<D>, data: D)
    ensures
        spec_after_load(live, Ok::<D, Error>(data), true) == Some(data),
{
}

} // verus!
