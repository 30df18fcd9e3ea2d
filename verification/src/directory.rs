//! The credential directory: the durable record set of client identities.
//!
//! A record binds a client name to a PHC password-hash string and the
//! virtual IP address assigned to that client.  The set is loaded once at
//! startup and answers three questions for the data plane: does this
//! (name, password) pair authenticate, which address belongs to a name,
//! and is an address owned by any client at all.  Addresses are unique
//! across records, so no two clients can claim the same tunnel address;
//! names are unique so a name resolves to one record.

use vstd::prelude::*;

use crate::auth::phc_check;
use crate::auth::phc_hash;
use crate::auth::phc_verifies;
use crate::auth::phc_verify;
use crate::auth::phc_wellformed;
use crate::net::IpAddress;

verus! {

/// One client's durable credentials: a name, the PHC hash of its
/// password, and its assigned virtual IP address.
#[derive(Clone, Debug)]
pub struct ClientRecord {
    pub name: String,
    pub token: String,
    pub ip: IpAddress,
}

/// Why a record was not added to the directory.
#[derive(PartialEq, Eq, Structural, Clone, Copy, Debug)]
pub enum DirectoryError {
    /// A record with this name already exists.
    DuplicateName,
    /// Another record already holds this assigned address.
    DuplicateIp,
    /// The stored hash string does not parse as PHC; a configuration
    /// error, surfaced when the record set is loaded.
    MalformedHash,
    /// The password hasher reported a failure.
    HashFailure,
}

/// The loaded record set.
pub struct Directory {
    records: Vec<ClientRecord>,
}

impl View for Directory {
    type V = Seq<ClientRecord>;

    closed spec fn view(&self) -> Seq<ClientRecord> {
        self.records@
    }
}

impl Directory {
    /// Names and assigned addresses are unique across records.
    pub open spec fn wf(self) -> bool {
        forall|i: int, j: int|
            #![trigger self@[i], self@[j]]
            0 <= i < j < self@.len() ==> self@[i].name@ != self@[j].name@ && self@[i].ip
                != self@[j].ip
    }

    /// Some record carries this name.
    pub open spec fn has_name(self, name: Seq<char>) -> bool {
        exists|i: int| #![trigger self@[i]] 0 <= i < self@.len() && self@[i].name@ == name
    }

    /// Some record carries this name and this assigned address.
    pub open spec fn name_has_ip(self, name: Seq<char>, ip: IpAddress) -> bool {
        exists|i: int|
            #![trigger self@[i]]
            0 <= i < self@.len() && self@[i].name@ == name && self@[i].ip == ip
    }

    /// Some record's assigned address is `ip`.
    pub open spec fn owns_ip(self, ip: IpAddress) -> bool {
        exists|i: int| #![trigger self@[i]] 0 <= i < self@.len() && self@[i].ip == ip
    }

    /// `name` exists and `password` verifies against its stored hash.
    pub open spec fn auth_ok(self, name: Seq<char>, password: Seq<char>) -> bool {
        exists|i: int|
            #![trigger self@[i]]
            0 <= i < self@.len() && self@[i].name@ == name && phc_verifies(
                password,
                self@[i].token@,
            )
    }

    /// An empty directory.
    pub fn new() -> (d: Directory)
        ensures
            d.wf(),
            d@.len() == 0,
    {
        Directory { records: Vec::new() }
    }

    /// The index of the record named `name`, if one exists.
    fn find_name(&self, name: &String) -> (r: Option<usize>)
        ensures
            r matches Some(i) ==> i < self@.len() && self@[i as int].name@ == name@,
            r is Some <==> self.has_name(name@),
    {
        let n = self.records.len();
        let mut i: usize = 0;
        while i < n
            invariant
                n == self@.len(),
                i <= n,
                forall|j: int| #![trigger self@[j]] 0 <= j < i ==> self@[j].name@ != name@,
            decreases n - i,
        {
            if self.records[i].name == *name {
                return Some(i);
            }
            i += 1;
        }
        None
    }

    /// True iff some record carries `name`.
    pub fn contains_name(&self, name: &String) -> (r: bool)
        ensures
            r == self.has_name(name@),
    {
        self.find_name(name).is_some()
    }

    /// True iff `ip` is the assigned address of some record.
    pub fn owns(&self, ip: IpAddress) -> (r: bool)
        ensures
            r == self.owns_ip(ip),
    {
        let n = self.records.len();
        let mut i: usize = 0;
        while i < n
            invariant
                n == self@.len(),
                i <= n,
                forall|j: int| #![trigger self@[j]] 0 <= j < i ==> self@[j].ip != ip,
            decreases n - i,
        {
            if self.records[i].ip == ip {
                return true;
            }
            i += 1;
        }
        false
    }

    /// The assigned address of `name`, or `None` for an unknown name.
    pub fn assigned_ip_of(&self, name: &String) -> (r: Option<IpAddress>)
        ensures
            r matches Some(ip) ==> self.name_has_ip(name@, ip),
            r is Some <==> self.has_name(name@),
    {
        match self.find_name(name) {
            Some(i) => Some(self.records[i].ip),
            None => None,
        }
    }

    /// True iff `name` exists and `password` verifies against its stored
    /// hash; false for an unknown name and for a wrong password alike.
    pub fn authenticate(&self, name: &String, password: &String) -> (r: bool)
        requires
            self.wf(),
        ensures
            r == self.auth_ok(name@, password@),
    {
        match self.find_name(name) {
            Some(i) => {
                let ok = phc_verify(password.as_str(), self.records[i].token.as_str());
                proof {
                    if !ok {
                        assert forall|j: int|
                            0 <= j < self@.len() && (#[trigger] self@[j]).name@
                                == name@ implies !phc_verifies(password@, self@[j].token@) by {
                            if j < i as int {
                                assert(self@[j].name@ != self@[i as int].name@);
                            } else if j > i as int {
                                assert(self@[i as int].name@ != self@[j].name@);
                            }
                        }
                    }
                }
                ok
            },
            None => false,
        }
    }

    /// Adds a record, rejecting a duplicate name, a duplicate address,
    /// and a stored hash string that does not parse as PHC.
    pub fn add_record(&mut self, name: String, token: String, ip: IpAddress) -> (r: Result<
        (),
        DirectoryError,
    >)
        requires
            old(self).wf(),
        ensures
            final(self).wf(),
            r is Ok <==> !old(self).has_name(name@) && !old(self).owns_ip(ip) && phc_wellformed(
                token@,
            ),
            r == Err::<(), DirectoryError>(DirectoryError::DuplicateName) <==> old(self).has_name(
                name@,
            ),
            r == Err::<(), DirectoryError>(DirectoryError::DuplicateIp) <==> !old(self).has_name(
                name@,
            ) && old(self).owns_ip(ip),
            r == Err::<(), DirectoryError>(DirectoryError::MalformedHash) <==> !old(self).has_name(
                name@,
            ) && !old(self).owns_ip(ip) && !phc_wellformed(token@),
            r is Ok ==> final(self)@ == old(self)@.push(
                (ClientRecord { name: name, token: token, ip: ip }),
            ),
            r is Err ==> final(self)@ == old(self)@,
    {
        if self.contains_name(&name) {
            return Err(DirectoryError::DuplicateName);
        }
        if self.owns(ip) {
            return Err(DirectoryError::DuplicateIp);
        }
        if !phc_check(token.as_str()) {
            return Err(DirectoryError::MalformedHash);
        }
        let ghost pre = self@;
        let ghost nm = name@;
        self.records.push(ClientRecord { name, token, ip });
        proof {
            assert forall|i: int, j: int|
                #![trigger self@[i], self@[j]]
                0 <= i < j < self@.len() implies self@[i].name@ != self@[j].name@ && self@[i].ip
                != self@[j].ip by {
                assert(self@[i] == pre[i]);
                if j < pre.len() {
                    assert(self@[j] == pre[j]);
                } else {
                    assert(self@[j].name@ == nm && self@[j].ip == ip);
                    assert(pre[i].name@ != nm);
                    assert(pre[i].ip != ip);
                }
            }
            assert(self.wf());
        }
        Ok(())
    }

    /// Hashes `password` under a fresh salt and adds the record.  The
    /// hasher's failure, which nothing here decides, is reported as
    /// `HashFailure`; on success the stored token verifies `password`.
    pub fn add_client(&mut self, name: String, password: &String, ip: IpAddress) -> (r: Result<
        (),
        DirectoryError,
    >)
        requires
            old(self).wf(),
        ensures
            final(self).wf(),
            r == Err::<(), DirectoryError>(DirectoryError::DuplicateName) <==> old(self).has_name(
                name@,
            ),
            r == Err::<(), DirectoryError>(DirectoryError::DuplicateIp) <==> !old(self).has_name(
                name@,
            ) && old(self).owns_ip(ip),
            r is Ok || r == Err::<(), DirectoryError>(DirectoryError::HashFailure) <==> !old(
                self,
            ).has_name(name@) && !old(self).owns_ip(ip),
            r is Ok ==> final(self)@.len() == old(self)@.len() + 1 && final(self)@.last().name@
                == name@ && final(self)@.last().ip == ip && phc_verifies(
                password@,
                final(self)@.last().token@,
            ) && final(self)@.subrange(0, old(self)@.len() as int) == old(self)@,
            r is Err ==> final(self)@ == old(self)@,
    {
        let ghost pre = self@;
        if self.contains_name(&name) {
            return Err(DirectoryError::DuplicateName);
        }
        if self.owns(ip) {
            return Err(DirectoryError::DuplicateIp);
        }
        match phc_hash(password.as_str()) {
            Some(token) => {
                let r = self.add_record(name, token, ip);
                proof {
                    assert(r is Ok);
                    assert(self@.subrange(0, pre.len() as int) =~= pre);
                }
                Ok(())
            },
            None => Err(DirectoryError::HashFailure),
        }
    }

    /// Removes the record named `name`, if one exists.
    pub fn remove_record(&mut self, name: &String) -> (r: bool)
        requires
            old(self).wf(),
        ensures
            final(self).wf(),
            r == old(self).has_name(name@),
            !final(self).has_name(name@),
            r ==> exists|k: int|
                0 <= k < old(self)@.len() && (#[trigger] old(self)@[k]).name@ == name@
                    && final(self)@ == old(self)@.remove(k),
            !r ==> final(self)@ == old(self)@,
    {
        match self.find_name(name) {
            Some(i) => {
                let ghost pre = self@;
                let ghost k = i as int;
                self.records.remove(i);
                proof {
                    assert forall|a: int, b: int|
                        #![trigger self@[a], self@[b]]
                        0 <= a < b < self@.len() implies self@[a].name@ != self@[b].name@
                        && self@[a].ip != self@[b].ip by {
                        let a0 = if a < k {
                            a
                        } else {
                            a + 1
                        };
                        let b0 = if b < k {
                            b
                        } else {
                            b + 1
                        };
                        assert(self@[a] == pre[a0]);
                        assert(self@[b] == pre[b0]);
                    }
                    assert(self.wf());
                    assert forall|j: int| 0 <= j < self@.len() implies (#[trigger] self@[j]).name@
                        != name@ by {
                        let j0 = if j < k {
                            j
                        } else {
                            j + 1
                        };
                        assert(self@[j] == pre[j0]);
                        if j0 < k {
                            assert(pre[j0].name@ != pre[k].name@);
                        } else {
                            assert(pre[k].name@ != pre[j0].name@);
                        }
                    }
                    assert(self@ =~= pre.remove(k));
                }
                true
            },
            None => false,
        }
    }

    /// The number of records.
    pub fn len(&self) -> (n: usize)
        ensures
            n == self@.len(),
    {
        self.records.len()
    }

    /// The record at one index.
    pub fn record_at(&self, i: usize) -> (r: &ClientRecord)
        requires
            i < self@.len(),
        ensures
            *r == self@[i as int],
    {
        &self.records[i]
    }
}

} // verus!
