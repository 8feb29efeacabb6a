use vstd::prelude::*;
use crate::error::VaultError;
use crate::secret::{Secret, SecretData, metadata_of, opt_ts};

verus! {

/// One persisted row of the vault, value included. Only the vault itself
/// and the storage glue ever hold one; everything handed out for display
/// goes through [`Secret`], which never carries the value.
#[derive(Debug)]
pub struct StoredSecret {
    pub name: String,
    pub value: String,
    pub description: String,
    pub frozen: bool,
    pub created_at: i64,
    pub updated_at: i64,
    pub expires_at: Option<i64>,
}

impl View for StoredSecret {
    type V = SecretData;

    open spec fn view(&self) -> SecretData {
        SecretData {
            name: self.name@,
            value: self.value@,
            description: self.description@,
            frozen: self.frozen,
            created_at: self.created_at as int,
            updated_at: self.updated_at as int,
            expires_at: opt_ts(self.expires_at),
        }
    }
}

/// Whether some record in `s` bears `name`.
pub open spec fn contains_name(s: Seq<SecretData>, name: Seq<char>) -> bool {
    exists|i: int| 0 <= i < s.len() && s[i].name == name
}

/// The position of the record bearing `name`; meaningful when
/// `contains_name(s, name)` holds and names are unique.
pub open spec fn index_of_name(s: Seq<SecretData>, name: Seq<char>) -> int {
    choose|i: int| 0 <= i < s.len() && s[i].name == name
}

/// The record bearing `name`.
pub open spec fn lookup_name(s: Seq<SecretData>, name: Seq<char>) -> SecretData {
    s[index_of_name(s, name)]
}

/// The vault's central invariant: no two records share a name.
pub open spec fn unique_names(s: Seq<SecretData>) -> bool {
    forall|i: int, j: int| 0 <= i < j < s.len() ==> s[i].name != s[j].name
}

/// The record that a create operation appends.
pub open spec fn created_record(
    name: Seq<char>,
    value: Seq<char>,
    description: Seq<char>,
    frozen: bool,
    expires_at: Option<int>,
    now: int,
) -> SecretData {
    SecretData { name, value, description, frozen, created_at: now, updated_at: now, expires_at }
}

/// The model of an optional description: free text, empty when omitted.
pub open spec fn opt_description(d: Option<&str>) -> Seq<char> {
    match d {
        Some(text) => text@,
        None => Seq::<char>::empty(),
    }
}

/// When a record bearing `name` sits at position `j` of a uniquely-named
/// sequence, the name lookup lands exactly there.
pub proof fn lemma_lookup_at(s: Seq<SecretData>, name: Seq<char>, j: int)
    requires
        unique_names(s),
        0 <= j < s.len(),
        s[j].name == name,
    ensures
        contains_name(s, name),
        index_of_name(s, name) == j,
        lookup_name(s, name) == s[j],
{
    assert(contains_name(s, name));
    let i = index_of_name(s, name);
    assert(0 <= i < s.len() && s[i].name == name);
    if i < j {
        assert(s[i].name != s[j].name);
    } else if j < i {
        assert(s[j].name != s[i].name);
    }
}

/// The vault: the sole owner of the secret store's state for the life of
/// the process. Its representation keeps the records in storage order; the
/// name-uniqueness invariant is what the storage layer's unique constraint
/// stands for.
#[derive(Debug)]
pub struct Vault {
    secrets: Vec<StoredSecret>,
}

impl View for Vault {
    type V = Seq<SecretData>;

    closed spec fn view(&self) -> Seq<SecretData> {
        self.secrets@.map_values(|s: StoredSecret| s@)
    }
}

/// Looks for `name` among the first `upto` records.
fn find_in_prefix(secrets: &Vec<StoredSecret>, upto: usize, name: &String) -> (r: Option<usize>)
    requires
        upto <= secrets@.len(),
    ensures
        (r matches Some(j) ==> j < upto && secrets@[j as int]@.name == name@),
        (r is None ==> forall|j: int| 0 <= j < upto ==> secrets@[j]@.name != name@),
{
    let mut k: usize = 0;
    while k < upto
        invariant
            upto <= secrets@.len(),
            k <= upto,
            forall|j: int| 0 <= j < k ==> secrets@[j]@.name != name@,
        decreases upto - k,
    {
        if secrets[k].name == *name {
            return Some(k);
        }
        k = k + 1;
    }
    None
}

impl Vault {
    /// Well-formedness: the name-uniqueness invariant holds of the state.
    pub open spec fn wf(&self) -> bool {
        unique_names(self@)
    }

    /// Readies a vault over the records recovered from the store.
    ///
    /// The store's unique constraint makes duplicate names impossible, but
    /// a state that breaks the invariant is still refused defensively
    /// rather than trusted.
    pub fn init(secrets: Vec<StoredSecret>) -> (r: Result<Vault, VaultError>)
        ensures
            (unique_names(secrets@.map_values(|s: StoredSecret| s@)) ==> (r matches Ok(v)
                && v@ == secrets@.map_values(|s: StoredSecret| s@) && v.wf())),
            (!unique_names(secrets@.map_values(|s: StoredSecret| s@)) ==> (r matches Err(e)
                && e matches VaultError::UnexpectedStorageError(m)
                && m@ == "duplicate secret names in store"@)),
    {
        let ghost model = secrets@.map_values(|s: StoredSecret| s@);
        let n = secrets.len();
        let mut i: usize = 0;
        while i < n
            invariant
                n == secrets@.len(),
                i <= n,
                model == secrets@.map_values(|s: StoredSecret| s@),
                forall|p: int, q: int| 0 <= p < q < i ==> model[p].name != model[q].name,
            decreases n - i,
        {
            let dup = find_in_prefix(&secrets, i, &secrets[i].name);
            if dup.is_some() {
                proof {
                    let j = dup->0 as int;
                    assert(model[j].name == model[i as int].name);
                    assert(!unique_names(model));
                }
                return Err(VaultError::UnexpectedStorageError(
                    "duplicate secret names in store".to_owned(),
                ));
            }
            i = i + 1;
        }
        Ok(Vault { secrets })
    }

    /// Inserts a new secret, detecting a name collision rather than
    /// pre-checking and racing. `now` is the store's clock at insertion and
    /// becomes both timestamps. On a collision nothing changes; otherwise
    /// exactly the new record is appended.
    pub fn create_secret(
        &mut self,
        name: &str,
        value: &str,
        description: Option<&str>,
        frozen: bool,
        expires_at: Option<i64>,
        now: i64,
    ) -> (r: Result<(), VaultError>)
        requires
            old(self).wf(),
        ensures
            final(self).wf(),
            (contains_name(old(self)@, name@) ==> (r matches Err(e)
                && e is NameAlreadyInUse && final(self)@ == old(self)@)),
            (!contains_name(old(self)@, name@) ==> (r matches Ok(u)
                && final(self)@ == old(self)@.push(
                created_record(name@, value@, opt_description(description), frozen,
                    opt_ts(expires_at), now as int)))),
    {
        let key = name.to_owned();
        let hit = find_in_prefix(&self.secrets, self.secrets.len(), &key);
        match hit {
            Some(j) => {
                proof {
                    assert(self@[j as int].name == name@);
                    assert(contains_name(self@, name@));
                }
                Err(VaultError::NameAlreadyInUse)
            },
            None => {
                let record = StoredSecret {
                    name: key,
                    value: value.to_owned(),
                    description: match description {
                        Some(text) => text.to_owned(),
                        None => String::new(),
                    },
                    frozen,
                    created_at: now,
                    updated_at: now,
                    expires_at,
                };
                proof {
                    assert(!contains_name(old(self)@, name@));
                }
                let ghost d = record@;
                self.secrets.push(record);
                proof {
                    assert(self@ =~= old(self)@.push(d));
                    assert(d == created_record(name@, value@, opt_description(description),
                        frozen, opt_ts(expires_at), now as int));
                    assert forall|p: int, q: int| 0 <= p < q < self@.len() implies
                        self@[p].name != self@[q].name by {
                        if q < old(self)@.len() {
                            assert(old(self)@[p].name != old(self)@[q].name);
                        } else {
                            assert(self@[q] == d);
                            assert(self@[p] == old(self)@[p]);
                        }
                    }
                }
                Ok(())
            },
        }
    }

    /// All secrets, in storage order, as metadata only: the value column is
    /// never fetched for a listing. An empty vault yields an empty listing.
    pub fn list_secrets(&self) -> (r: Vec<Secret>)
        ensures
            r@.len() == self@.len(),
            forall|i: int| 0 <= i < self@.len() ==> #[trigger] r@[i]@ == metadata_of(self@[i]),
    {
        let mut out: Vec<Secret> = Vec::new();
        let n = self.secrets.len();
        let mut i: usize = 0;
        while i < n
            invariant
                n == self.secrets@.len(),
                i <= n,
                out@.len() == i,
                forall|j: int| 0 <= j < i ==> #[trigger] out@[j]@ == metadata_of(self@[j]),
            decreases n - i,
        {
            let row = &self.secrets[i];
            let entry = Secret::new(
                row.name.clone(),
                row.description.clone(),
                row.frozen,
                row.created_at,
                row.updated_at,
                row.expires_at,
            );
            proof {
                assert(entry@ == metadata_of(self@[i as int]));
            }
            out.push(entry);
            i = i + 1;
        }
        out
    }

    /// One secret's metadata by exact name, the value blanked out. Absent
    /// names fail with `NotFound` carrying the name asked for.
    pub fn describe_secret(&self, name: &str) -> (r: Result<Secret, VaultError>)
        requires
            self.wf(),
        ensures
            (contains_name(self@, name@) ==> (r matches Ok(s)
                && s@ == metadata_of(lookup_name(self@, name@)))),
            (!contains_name(self@, name@) ==> (r matches Err(e)
                && e matches VaultError::NotFound(n) && n@ == name@)),
    {
        let key = name.to_owned();
        let hit = find_in_prefix(&self.secrets, self.secrets.len(), &key);
        match hit {
            Some(j) => {
                proof {
                    lemma_lookup_at(self@, name@, j as int);
                }
                let row = &self.secrets[j];
                Ok(Secret::new(
                    row.name.clone(),
                    row.description.clone(),
                    row.frozen,
                    row.created_at,
                    row.updated_at,
                    row.expires_at,
                ))
            },
            None => Err(VaultError::NotFound(key)),
        }
    }

    /// The plaintext value by exact name: the one operation that exposes
    /// it. Absent names fail with `NotFound` carrying the name asked for.
    pub fn decrypt_secret(&self, name: &str) -> (r: Result<String, VaultError>)
        requires
            self.wf(),
        ensures
            (contains_name(self@, name@) ==> (r matches Ok(v)
                && v@ == lookup_name(self@, name@).value)),
            (!contains_name(self@, name@) ==> (r matches Err(e)
                && e matches VaultError::NotFound(n) && n@ == name@)),
    {
        let key = name.to_owned();
        let hit = find_in_prefix(&self.secrets, self.secrets.len(), &key);
        match hit {
            Some(j) => {
                proof {
                    lemma_lookup_at(self@, name@, j as int);
                }
                Ok(self.secrets[j].value.clone())
            },
            None => Err(VaultError::NotFound(key)),
        }
    }

    /// Uploading to a remote backend is an intended but unbuilt extension
    /// point: it fails fast instead of being silently absent.
    pub fn upload_secret(_vault: &str, _name: &str, _backend: &str) -> (r: Result<(), VaultError>)
        ensures
            (r matches Err(e) && e is NotImplemented),
    {
        Err(VaultError::NotImplemented)
    }
}

} // verus!
