use vstd::prelude::*;

verus! {

/// Mathematical model of one stored secret: the row the vault persists.
pub ghost struct SecretData {
    pub name: Seq<char>,
    pub value: Seq<char>,
    pub description: Seq<char>,
    pub frozen: bool,
    pub created_at: int,
    pub updated_at: int,
    pub expires_at: Option<int>,
}

/// The model of an optional timestamp.
pub open spec fn opt_ts(o: Option<i64>) -> Option<int> {
    match o {
        Some(t) => Some(t as int),
        None => None,
    }
}

/// The fixed marker that stands in for a secret's value in every textual
/// rendering. Listings and descriptions never show the plaintext.
pub open spec fn redaction_marker() -> Seq<char> {
    "<redacted>"@
}

/// The marker shown for an optional attribute that is not set, so that an
/// absent value is never mistaken for an empty string.
pub open spec fn undefined_marker() -> Seq<char> {
    "undefined"@
}

/// Metadata view of a record: the same row with the value blanked out.
/// This is all a listing or a description ever carries.
pub open spec fn metadata_of(d: SecretData) -> SecretData {
    SecretData { value: Seq::<char>::empty(), ..d }
}

/// How `display_datetime` renders a UTC timestamp (seconds since the epoch).
/// The rendering is fixed by the timestamp alone.
pub uninterp spec fn utc_display_of(ts: int) -> Seq<char>;

/// Relies on chrono: `DateTime::<Utc>::from_timestamp` and the `Display`
/// impl of `DateTime<Utc>` compute from the given seconds alone, with a
/// fixed format and no locale or time-zone input, so the result is a
/// function of `ts`. Out-of-range seconds yield `None` and render empty.
#[verifier::external_body]
pub(crate) fn display_datetime(ts: i64) -> (r: String)
    ensures
        r@ == utc_display_of(ts as int),
{
    match chrono::DateTime::<chrono::Utc>::from_timestamp(ts, 0) {
        Some(dt) => dt.to_string(),
        None => String::new(),
    }
}

/// Renders a secret value for display: always the redaction marker,
/// whatever the value holds.
pub fn display_secret(_value: &String) -> (r: String)
    ensures
        r@ == redaction_marker(),
{
    "<redacted>".to_owned()
}

/// A secret's metadata, as handed out by listings and descriptions.
///
/// The `value` attribute exists to mirror the persisted row but is never
/// populated from the store: every constructor leaves it empty, and every
/// rendering of it is the redaction marker. The plaintext is only ever
/// obtained through an explicit decrypt operation, which returns the bare
/// string and never a `Secret`.
#[derive(Debug)]
pub struct Secret {
    pub name: String,
    pub value: String,
    pub description: String,
    /// A secret is frozen if its value is immutable.
    pub frozen: bool,
    pub created_at: i64,
    pub updated_at: i64,
    /// The expiry time of the secret, if it has one.
    pub expires_at: Option<i64>,
}

impl View for Secret {
    type V = SecretData;

    open spec fn view(&self) -> SecretData {
        SecretData {
            name: self.name@,
            value: self.value@,
            description: self.description@,
            frozen: self.frozen,
            created_at: self.created_at as int,
            updated_at: self.updated_at as int,
            expires_at: opt_ts(self.expires_at),
        }
    }
}

impl Secret {
    /// Builds metadata for display. The value is not a parameter: it is
    /// always left empty, so no `Secret` ever carries plaintext.
    pub fn new(
        name: String,
        description: String,
        frozen: bool,
        created_at: i64,
        updated_at: i64,
        expires_at: Option<i64>,
    ) -> (s: Secret)
        ensures
            s@.name == name@,
            s@.value == Seq::<char>::empty(),
            s@.description == description@,
            s@.frozen == frozen,
            s@.created_at == created_at as int,
            s@.updated_at == updated_at as int,
            s@.expires_at == opt_ts(expires_at),
    {
        Secret { name, value: String::new(), description, frozen, created_at, updated_at, expires_at }
    }

    /// The rendering of the value attribute: the redaction marker, never
    /// the plaintext.
    pub fn rendered_value(&self) -> (r: String)
        ensures
            r@ == redaction_marker(),
    {
        display_secret(&self.value)
    }

    /// The rendering of the creation timestamp.
    pub fn rendered_created_at(&self) -> (r: String)
        ensures
            r@ == utc_display_of(self.created_at as int),
    {
        display_datetime(self.created_at)
    }

    /// The rendering of the last-update timestamp.
    pub fn rendered_updated_at(&self) -> (r: String)
        ensures
            r@ == utc_display_of(self.updated_at as int),
    {
        display_datetime(self.updated_at)
    }

    /// The rendering of the expiry: the timestamp when set, else an
    /// explicit marker for an absent value.
    pub fn rendered_expires_at(&self) -> (r: String)
        ensures
            (self.expires_at matches Some(ts) ==> r@ == utc_display_of(ts as int)),
            (self.expires_at is None ==> r@ == undefined_marker()),
    {
        match self.expires_at {
            Some(ts) => display_datetime(ts),
            None => "undefined".to_owned(),
        }
    }
}

} // verus!
