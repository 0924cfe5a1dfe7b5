//! A working copy of the settings, loaded from and saved to a storage.

use vstd::prelude::*;

verus! {

pub enum LoadError<T> {
    ReadError(T),
    ConststenceError,
}

/// Why the settings could not be set up.
#[derive(Debug)]
pub enum InitError<E> {
    /// The storage could not be read.
    Read(E),
    /// The storage held no valid settings and the defaults could not be saved.
    SaveDefault(E),
}

/// How the settings are kept in a storage.
pub trait StoragePolicy<T: Sized, E>: Sized {
    /// Whether storing `v` answers `r` and leaves the policy as `after`. A
    /// policy that does not describe its storing keeps this open.
    open spec fn spec_store(&self, after: Self, v: T, r: Result<(), E>) -> bool {
        true
    }

    /// Whether loading answers `r` and leaves the policy as `after`. A policy
    /// that does not describe its loading keeps this open.
    open spec fn spec_load(&self, after: Self, r: Result<T, LoadError<E>>) -> bool {
        true
    }

    fn store(&mut self, v: &T) -> (r: Result<(), E>)
        ensures
            old(self).spec_store(*final(self), *v, r),
    ;

    fn load(&mut self) -> (r: Result<T, LoadError<E>>)
        ensures
            old(self).spec_load(*final(self), r),
    ;
}

/// What `SettingsManager::new` makes of the load's answer `l`, the policy
/// being `mid` after the load: loaded settings are the working copy; where the
/// storage held none that are valid, the defaults are stored and become the
/// working copy, and a failed store is `SaveDefault`; a failed read is `Read`.
pub open spec fn spec_new_done<T: Copy, U, E, P: StoragePolicy<T, E>>(
    default: T,
    l: Result<T, LoadError<E>>,
    mid: P,
    fin: P,
    r: Result<SettingsManager<T, U>, InitError<E>>,
) -> bool {
    match l {
        Ok(v) => fin == mid && (r matches Ok(m) && m.spec_work_copy() == v),
        Err(LoadError::ReadError(e)) => fin == mid && (r matches Err(InitError::Read(x)) && x == e),
        Err(LoadError::ConststenceError) => exists|s: Result<(), E>|
            #![trigger mid.spec_store(fin, default, s)]
            mid.spec_store(fin, default, s) && match s {
                Ok(_) => r matches Ok(m) && m.spec_work_copy() == default,
                Err(e) => r matches Err(InitError::SaveDefault(x)) && x == e,
            },
    }
}

/// The settings in use (`T`), the values that live in memory only (`U`), and the
/// defaults.
pub struct SettingsManager<T, U> {
    work_copy: T,
    non_store_values: U,
    default: T,
}

impl<T: Copy, U> SettingsManager<T, U> {
    pub closed spec fn spec_work_copy(&self) -> T {
        self.work_copy
    }

    pub closed spec fn spec_non_store_values(&self) -> U {
        self.non_store_values
    }

    pub closed spec fn spec_default(&self) -> T {
        self.default
    }

    /// Loads the settings from the storage into the working copy; the answer
    /// is the policy's.
    pub fn load<Terr, Tpolicy: StoragePolicy<T, Terr>>(&mut self, policy: &mut Tpolicy) -> (r: Result<
        T,
        LoadError<Terr>,
    >)
        ensures
            old(policy).spec_load(*final(policy), r),
            r matches Ok(v) ==> final(self).spec_work_copy() == v,
            r is Err ==> final(self).spec_work_copy() == old(self).spec_work_copy(),
            final(self).spec_non_store_values() == old(self).spec_non_store_values(),
            final(self).spec_default() == old(self).spec_default(),
    {
        match policy.load() {
            Ok(v) => {
                self.work_copy = v;
                Ok(v)
            },
            Err(e) => Err(e),
        }
    }

    /// Saves the working copy to the storage; the answer is the policy's.
    pub fn save<Terr, Tpolicy: StoragePolicy<T, Terr>>(&self, policy: &mut Tpolicy) -> (r: Result<
        (),
        Terr,
    >)
        ensures
            old(policy).spec_store(*final(policy), self.spec_work_copy(), r),
    {
        policy.store(&self.work_copy)
    }

    /// The working copy and the memory-only values, for change.
    pub fn ref_mut(&mut self) -> (r: (&mut T, &mut U))
        ensures
            *r.0 == old(self).spec_work_copy(),
            *r.1 == old(self).spec_non_store_values(),
            final(self).spec_work_copy() == *final(r.0),
            final(self).spec_non_store_values() == *final(r.1),
            final(self).spec_default() == old(self).spec_default(),
    {
        (&mut self.work_copy, &mut self.non_store_values)
    }

    /// Loads the settings; when the storage holds none that are valid, the defaults
    /// are taken and saved.
    pub fn new<Terr, Tpolicy: StoragePolicy<T, Terr>>(
        default: T,
        non_store_values_init: U,
        policy: &mut Tpolicy,
    ) -> (r: Result<Self, InitError<Terr>>)
        ensures
            r matches Ok(m) ==> m.spec_default() == default && m.spec_non_store_values()
                == non_store_values_init,
            exists|mid: Tpolicy, l: Result<T, LoadError<Terr>>|
                #![trigger old(policy).spec_load(mid, l)]
                old(policy).spec_load(mid, l) && spec_new_done(
                    default,
                    l,
                    mid,
                    *final(policy),
                    r,
                ),
    {
        let mut res = Self { work_copy: default, non_store_values: non_store_values_init, default };
        let ghost p0 = *policy;
        let l = res.load(policy);
        let ghost mid = *policy;
        match l {
            Ok(_) => {
                proof {
                    assert(p0.spec_load(mid, l) && spec_new_done(default, l, mid, *policy, Ok::<Self, InitError<Terr>>(res)));
                }
                Ok(res)
            },
            Err(LoadError::ConststenceError) => {
                res.work_copy = res.default;
                let s = res.save(policy);
                let r = match s {
                    Ok(()) => Ok(res),
                    Err(e) => Err(InitError::SaveDefault(e)),
                };
                proof {
                    assert(mid.spec_store(*policy, default, s));
                    assert(p0.spec_load(mid, l) && spec_new_done(default, l, mid, *policy, r));
                }
                r
            },
            Err(LoadError::ReadError(e)) => {
                let r = Err(InitError::Read(e));
                proof {
                    assert(p0.spec_load(mid, l) && spec_new_done(default, l, mid, *policy, r));
                }
                r
            },
        }
    }
}

} // verus!
