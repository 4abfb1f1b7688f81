//! Projectile kinds and the lock-on logic of homing projectiles.

use vstd::prelude::*;

verus! {

/// Kind of projectile.
#[derive(Debug, Clone, Copy, PartialEq, Eq, Structural)]
pub enum ProjectileType {
    /// Large, slow, long-lived and homing.
    Tracking,
    /// Small, fast and straight-flying.
    AutoFire,
}

/// Whether `id` is among `ids`.
pub fn contains_id(ids: &[usize], id: usize) -> (r: bool)
    ensures
        r == ids@.contains(id),
{
    let mut i: usize = 0;
    while i < ids.len()
        invariant
            i <= ids@.len(),
            forall|k: int| 0 <= k < i ==> ids@[k] != id,
        decreases ids@.len() - i,
    {
        if ids[i] == id {
            proof {
                assert(ids@[i as int] == id);
            }
            return true;
        }
        i = i + 1;
    }
    false
}

/// Target state of a homing projectile: the id it is locked on, if any, and
/// whether it is searching for a new target.
#[derive(Debug, Clone, Copy, PartialEq, Eq, Structural)]
pub struct HomingLock {
    pub target_id: Option<usize>,
    pub is_scanning: bool,
}

impl HomingLock {
    /// A projectile always has a target or is looking for one.
    pub open spec fn wf(self) -> bool {
        self.is_scanning || self.target_id is Some
    }

    /// Starts locked on `target_id`, or scanning when there is none.
    pub fn new(target_id: Option<usize>) -> (r: HomingLock)
        ensures
            r.wf(),
            r.target_id == target_id,
            r.is_scanning == (target_id is None),
    {
        HomingLock { target_id, is_scanning: target_id.is_none() }
    }

    /// A locked projectile whose target is no longer among `live_ids` goes
    /// back to scanning; its last target id is kept.
    pub fn revalidate(&mut self, live_ids: &[usize])
        requires
            old(self).wf(),
        ensures
            final(self).wf(),
            final(self).target_id == old(self).target_id,
            final(self).is_scanning == match old(self).target_id {
                Some(t) => old(self).is_scanning || !live_ids@.contains(t),
                None => old(self).is_scanning,
            },
    {
        if !self.is_scanning {
            if let Some(t) = self.target_id {
                self.is_scanning = !contains_id(live_ids, t);
            }
        }
    }

    /// The outcome of a scan: a scanning projectile locks on the candidate
    /// found, if any, and stops scanning; otherwise nothing changes.
    pub fn scan_result(&mut self, found: Option<usize>)
        requires
            old(self).wf(),
        ensures
            final(self).wf(),
            *final(self) == match found {
                Some(t) => if old(self).is_scanning {
                    HomingLock { target_id: Some(t), is_scanning: false }
                } else {
                    *old(self)
                },
                None => *old(self),
            },
    {
        if self.is_scanning {
            if let Some(t) = found {
                self.target_id = Some(t);
                self.is_scanning = false;
            }
        }
    }

    /// The target to steer toward: the locked one, none while scanning.
    pub fn steering_target(&self) -> (r: Option<usize>)
        ensures
            r == if self.is_scanning {
                None
            } else {
                self.target_id
            },
    {
        if self.is_scanning {
            None
        } else {
            self.target_id
        }
    }
}

} // verus!
