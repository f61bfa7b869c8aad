use vstd::prelude::*;

use crate::errors::McsError;

verus! {

/// What one on-disk instance directory shows: its name and whether the
/// server artifact file is present inside it. Directory presence alone
/// defines existence; the artifact defines the "installed" state.
#[derive(Clone, Debug, PartialEq, Eq)]
pub struct InstanceRecord {
    pub name: String,
    pub has_artifact: bool,
}

/// A snapshot of the base directory: one record per immediate
/// subdirectory. The filesystem is the sole source of truth, so a
/// snapshot is taken fresh before each operation and never cached.
#[derive(Clone, Debug, PartialEq, Eq)]
pub struct StoreSnapshot {
    pub records: Vec<InstanceRecord>,
}

/// Whether some record carries `name`: the instance exists.
pub open spec fn contains_name(records: Seq<InstanceRecord>, name: Seq<char>) -> bool {
    exists|i: int| 0 <= i < records.len() && records[i].name@ == name
}

/// Whether `name` belongs in the listing: its directory exists and
/// holds the artifact.
pub open spec fn listed(records: Seq<InstanceRecord>, name: Seq<char>) -> bool {
    exists|i: int| 0 <= i < records.len() && records[i].name@ == name && records[i].has_artifact
}

/// Whether `name` occurs among `names`.
pub open spec fn name_in(names: Seq<String>, name: Seq<char>) -> bool {
    exists|k: int| 0 <= k < names.len() && names[k]@ == name
}

/// What the listing reports, exactly: the names of the records that
/// hold their artifact, in snapshot order.
pub open spec fn spec_installed(records: Seq<InstanceRecord>) -> Seq<Seq<char>>
    decreases records.len(),
{
    if records.len() == 0 {
        Seq::empty()
    } else if records.last().has_artifact {
        spec_installed(records.drop_last()).push(records.last().name@)
    } else {
        spec_installed(records.drop_last())
    }
}

proof fn lemma_installed_take_step(records: Seq<InstanceRecord>, i: int)
    requires
        0 <= i < records.len(),
    ensures
        records[i].has_artifact ==> spec_installed(records.take(i + 1)) == spec_installed(
            records.take(i),
        ).push(records[i].name@),
        !records[i].has_artifact ==> spec_installed(records.take(i + 1)) == spec_installed(
            records.take(i),
        ),
{
    assert(records.take(i + 1).drop_last() =~= records.take(i));
    assert(records.take(i + 1).last() == records[i]);
}

impl StoreSnapshot {
    /// Directory names are unique within one base directory, so a
    /// snapshot never carries a name twice.
    pub open spec fn wf(&self) -> bool {
        forall|i: int, j: int|
            0 <= i < j < self.records@.len() ==> self.records@[i].name@ != self.records@[j].name@
    }

    /// Directory presence check.
    pub fn exists_instance(&self, name: &str) -> (r: bool)
        ensures
            r == contains_name(self.records@, name@),
    {
        let wanted: String = name.to_owned();
        let n = self.records.len();
        let mut k: usize = 0;
        while k < n
            invariant
                n == self.records.len(),
                wanted@ == name@,
                k <= n,
                forall|j: int| 0 <= j < k ==> self.records@[j].name@ != name@,
            decreases n - k,
        {
            if self.records[k].name == wanted {
                return true;
            }
            k += 1;
        }
        false
    }

    /// Precondition of `create`: fails with `InstanceAlreadyExists`
    /// exactly when the name is taken, before any network activity.
    pub fn check_absent(&self, name: &str) -> (r: Result<(), McsError>)
        ensures
            r is Ok <==> !contains_name(self.records@, name@),
            r matches Err(e) ==> (e matches McsError::InstanceAlreadyExists(n) && n@ == name@),
    {
        if self.exists_instance(name) {
            Err(McsError::InstanceAlreadyExists(name.to_owned()))
        } else {
            Ok(())
        }
    }

    /// Precondition of `launch`, `update` and `remove`: fails with
    /// `InstanceNotFound` exactly when no directory carries the name.
    pub fn check_present(&self, name: &str) -> (r: Result<(), McsError>)
        ensures
            r is Ok <==> contains_name(self.records@, name@),
            r matches Err(e) ==> (e matches McsError::InstanceNotFound(n) && n@ == name@),
    {
        if self.exists_instance(name) {
            Ok(())
        } else {
            Err(McsError::InstanceNotFound(name.to_owned()))
        }
    }

    /// The names the listing reports: every instance whose directory
    /// holds the artifact, and no other. A directory without the
    /// artifact (mid-creation or corrupted) is deliberately excluded.
    pub fn installed_names(&self) -> (r: Vec<String>)
        ensures
            r@.map_values(|s: String| s@) == spec_installed(self.records@),
            forall|k: int| 0 <= k < r@.len() ==> listed(self.records@, r@[k]@),
            forall|i: int|
                0 <= i < self.records@.len() && self.records@[i].has_artifact ==> name_in(
                    r@,
                    self.records@[i].name@,
                ),
    {
        let mut r: Vec<String> = Vec::new();
        let n = self.records.len();
        let mut k: usize = 0;
        proof {
            assert(self.records@.take(0) =~= Seq::<InstanceRecord>::empty());
            assert(r@.map_values(|s: String| s@) =~= spec_installed(self.records@.take(0)));
        }
        while k < n
            invariant
                n == self.records.len(),
                k <= n,
                r@.map_values(|s: String| s@) == spec_installed(self.records@.take(k as int)),
                forall|q: int| 0 <= q < r@.len() ==> listed(self.records@, r@[q]@),
                forall|i: int|
                    0 <= i < k && self.records@[i].has_artifact ==> name_in(
                        r@,
                        self.records@[i].name@,
                    ),
            decreases n - k,
        {
            proof {
                lemma_installed_take_step(self.records@, k as int);
            }
            if self.records[k].has_artifact {
                let ghost old_r = r@;
                r.push(self.records[k].name.clone());
                proof {
                    assert(r@[old_r.len() as int]@ == self.records@[k as int].name@);
                    assert(r@.map_values(|s: String| s@) =~= old_r.map_values(
                        |s: String| s@,
                    ).push(self.records@[k as int].name@));
                    assert(forall|i: int|
                        0 <= i < k && self.records@[i].has_artifact && name_in(
                            old_r,
                            self.records@[i].name@,
                        ) ==> name_in(r@, self.records@[i].name@)) by {
                        assert(forall|i: int, q: int|
                            0 <= i < k && 0 <= q < old_r.len() && old_r[q]@
                                == self.records@[i].name@ ==> r@[q]@ == self.records@[i].name@);
                    }
                }
            }
            k += 1;
        }
        proof {
            assert(self.records@.take(n as int) =~= self.records@);
        }
        r
    }

    /// The model of `remove`: drops the record that carries `name`, or
    /// fails with `InstanceNotFound` when there is none. Every other
    /// instance survives untouched.
    pub fn remove_instance(&mut self, name: &str) -> (r: Result<(), McsError>)
        requires
            old(self).wf(),
        ensures
            final(self).wf(),
            r is Ok <==> contains_name(old(self).records@, name@),
            r matches Err(e) ==> (e matches McsError::InstanceNotFound(n) && n@ == name@
                && final(self).records@ == old(self).records@),
            r is Ok ==> !contains_name(final(self).records@, name@),
            r is Ok ==> (exists|i: int|
                0 <= i < old(self).records@.len() && old(self).records@[i].name@ == name@
                    && final(self).records@ == old(self).records@.remove(i)),
            forall|other: Seq<char>|
                other != name@ ==> (contains_name(final(self).records@, other) <==> contains_name(
                    old(self).records@,
                    other,
                )),
    {
        let wanted: String = name.to_owned();
        let n = self.records.len();
        let mut k: usize = 0;
        while k < n
            invariant
                self.records@ == old(self).records@,
                old(self).wf(),
                n == self.records.len(),
                wanted@ == name@,
                k <= n,
                forall|j: int| 0 <= j < k ==> self.records@[j].name@ != name@,
            decreases n - k,
        {
            if self.records[k].name == wanted {
                let ghost old_recs = self.records@;
                self.records.remove(k);
                proof {
                    old_recs.remove_ensures(k as int);
                    assert(self.records@ == old_recs.remove(k as int));
                    assert forall|other: Seq<char>|
                        other != name@ && contains_name(
                            old_recs,
                            other,
                        ) implies contains_name(self.records@, other) by {
                        let j = choose|j: int|
                            0 <= j < old_recs.len() && old_recs[j].name@ == other;
                        if j < k {
                            assert(self.records@[j].name@ == other);
                        } else {
                            assert(self.records@[j - 1].name@ == other);
                        }
                    }
                    assert forall|i: int|
                        0 <= i < self.records@.len() implies self.records@[i].name@ != name@ by {
                        if i < k {
                            assert(self.records@[i] == old_recs[i]);
                        } else {
                            assert(self.records@[i] == old_recs[i + 1]);
                            assert(old_recs[k as int].name@ == name@);
                        }
                    }
                    assert forall|a: int, b: int|
                        0 <= a < b < self.records@.len() implies self.records@[a].name@
                        != self.records@[b].name@ by {
                        if b < k {
                            assert(self.records@[a] == old_recs[a]);
                            assert(self.records@[b] == old_recs[b]);
                        } else if a < k {
                            assert(self.records@[a] == old_recs[a]);
                            assert(self.records@[b] == old_recs[b + 1]);
                        } else {
                            assert(self.records@[a] == old_recs[a + 1]);
                            assert(self.records@[b] == old_recs[b + 1]);
                        }
                    }
                }
                return Ok(());
            }
            k += 1;
        }
        Err(McsError::InstanceNotFound(wanted))
    }
}

/// Picks the base directory once at process start: the environment
/// override when one is set, else `<home>/.mcservers`; fails when
/// neither source is available.
pub fn choose_base_dir(env_override: Option<String>, home_dir: Option<String>) -> (r: Result<
    String,
    McsError,
>)
    ensures
        env_override matches Some(d) ==> (r matches Ok(b) && b@ == d@),
        env_override is None ==> (home_dir matches Some(h) ==> (r matches Ok(b) && b@ == h@
            + "/.mcservers"@)),
        env_override is None && home_dir is None ==> (r matches Err(e) && e is IoError),
{
    match env_override {
        Some(d) => Ok(d),
        None => match home_dir {
            Some(h) => Ok(h.concat("/.mcservers")),
            None => Err(McsError::IoError),
        },
    }
}

/// The directory that holds instance `name`: `<base>/<name>`.
pub fn instance_dir(base: &str, name: &str) -> (r: String)
    ensures
        r@ == base@ + "/"@ + name@,
{
    let mut s: String = base.to_owned();
    s.append("/");
    s.append(name);
    s
}

/// Where the server artifact of instance `name` lives:
/// `<base>/<name>/server.jar`.
pub fn artifact_path(base: &str, name: &str) -> (r: String)
    ensures
        r@ == base@ + "/"@ + name@ + "/server.jar"@,
{
    let mut s = instance_dir(base, name);
    s.append("/server.jar");
    s
}

/// A name no record carries is never listed; in particular a name just
/// removed, and a directory that lacks its artifact, never appear in
/// the listing.
pub proof fn lemma_not_present_not_listed(records: Seq<InstanceRecord>, name: Seq<char>)
    ensures
        !contains_name(records, name) ==> !listed(records, name),
{
    if listed(records, name) {
        let i = choose|i: int|
            0 <= i < records.len() && records[i].name@ == name && records[i].has_artifact;
        assert(contains_name(records, name));
    }
}

} // verus!
