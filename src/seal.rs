use vstd::prelude::*;

verus! {

/// Where the machine is in its life.
#[derive(Clone, Copy, Debug, PartialEq, Eq, Structural)]
pub enum Status {
    /// No execution has begun.
    NotStarted,
    /// Execution has begun and nothing was changed under it.
    Untampered,
    /// Something was changed after execution began: the machine refuses to run.
    Tampered,
}

/// Whether a resource may be changed.
#[derive(Clone, Copy, Debug, PartialEq, Eq, Structural)]
pub enum Permissions {
    Read,
    Write,
}

/// The state after execution starts; `None` when the seal refuses to run.
pub open spec fn start_event(s: Status) -> Option<Status> {
    match s {
        Status::Tampered => None,
        _ => Some(Status::Untampered),
    }
}

/// The state after a callback is registered or the image is changed.
pub open spec fn mutate_event(s: Status) -> Status {
    match s {
        Status::Untampered => Status::Tampered,
        _ => s,
    }
}

/// Guards the machine against changes once execution has begun.
pub struct RunTimeSeal {
    runtime_status: Status,
    rust_c_permissions: Permissions,
    global_permissions: Permissions,
}

impl RunTimeSeal {
    pub closed spec fn status(&self) -> Status {
        self.runtime_status
    }

    pub closed spec fn rust_c_level(&self) -> Permissions {
        self.rust_c_permissions
    }

    pub closed spec fn global_level(&self) -> Permissions {
        self.global_permissions
    }

    /// A seal before any execution, with everything writable.
    pub fn new() -> (r: RunTimeSeal)
        ensures
            r.status() == Status::NotStarted,
            r.rust_c_level() == Permissions::Write,
            r.global_level() == Permissions::Write,
    {
        RunTimeSeal {
            runtime_status: Status::NotStarted,
            rust_c_permissions: Permissions::Write,
            global_permissions: Permissions::Write,
        }
    }

    /// The current state.
    pub fn runtime_security_status(&self) -> (r: Status)
        ensures
            r == self.status(),
    {
        self.runtime_status
    }

    /// Execution starts: refused (`false`, nothing changes) once tampered.
    pub fn set_runtime(&mut self) -> (ok: bool)
        ensures
            ok == start_event(old(self).status()) is Some,
            ok ==> final(self).status() == start_event(old(self).status())->0,
            !ok ==> final(self).status() == old(self).status(),
            final(self).rust_c_level() == old(self).rust_c_level(),
            final(self).global_level() == old(self).global_level(),
    {
        if self.runtime_status == Status::Tampered {
            false
        } else {
            self.runtime_status = Status::Untampered;
            true
        }
    }

    /// Marks the seal tampered, whatever its state: the machine will refuse to run.
    pub fn runtime_tampered(&mut self)
        ensures
            final(self).status() == Status::Tampered,
            final(self).rust_c_level() == old(self).rust_c_level(),
            final(self).global_level() == old(self).global_level(),
    {
        self.runtime_status = Status::Tampered;
    }

    /// A callback was registered or the image changed: a running machine becomes tampered,
    /// one that has not started is left as it is.
    pub fn mutated(&mut self)
        ensures
            final(self).status() == mutate_event(old(self).status()),
            final(self).rust_c_level() == old(self).rust_c_level(),
            final(self).global_level() == old(self).global_level(),
    {
        if self.runtime_status == Status::Untampered {
            self.runtime_tampered();
        }
    }

    /// Sets who may add callbacks; after execution has begun this tampers the seal instead.
    pub fn set_rust_c_perms(&mut self, level: Permissions)
        ensures
            old(self).status() is NotStarted ==> final(self).rust_c_level() == level && final(self).status()
                == old(self).status(),
            !(old(self).status() is NotStarted) ==> final(self).rust_c_level() == old(self).rust_c_level()
                && final(self).status() == mutate_event(old(self).status()),
            final(self).global_level() == old(self).global_level(),
    {
        if self.runtime_status != Status::NotStarted {
            self.runtime_tampered();
            return;
        }
        self.rust_c_permissions = level;
    }

    /// Sets who may change global registers; after execution has begun this tampers the seal instead.
    pub fn set_global_perms(&mut self, level: Permissions)
        ensures
            old(self).status() is NotStarted ==> final(self).global_level() == level && final(self).status()
                == old(self).status(),
            !(old(self).status() is NotStarted) ==> final(self).global_level() == old(self).global_level()
                && final(self).status() == mutate_event(old(self).status()),
            final(self).rust_c_level() == old(self).rust_c_level(),
    {
        if self.runtime_status != Status::NotStarted {
            self.runtime_tampered();
            return;
        }
        self.global_permissions = level;
    }
}

/// The lifecycle guard under its other name.
pub type Cardinal = RunTimeSeal;

} // verus!
