use vstd::prelude::*;

verus! {

/// The identity a client asserts, and, for a stored image, the image's
/// identifier and the path of its file.
pub struct Credentials {
    pub organization: String,
    pub username: String,
    pub mission: String,
    pub id: Option<String>,
    pub filepath: Option<String>,
}

/// The (organization, username, mission) triple as plain text.
pub struct IdentityTuple {
    pub organization: Seq<char>,
    pub username: Seq<char>,
    pub mission: Seq<char>,
}

/// A stored image's metadata row as plain text.
pub struct ImageRecord {
    pub tuple: IdentityTuple,
    pub id: Seq<char>,
    pub filepath: Seq<char>,
}

/// What a `Credentials` value holds, as plain text.
pub struct CredentialsView {
    pub tuple: IdentityTuple,
    pub id: Option<Seq<char>>,
    pub filepath: Option<Seq<char>>,
}

pub open spec fn text_of(field: Option<String>) -> Option<Seq<char>> {
    match field {
        Some(text) => Some(text@),
        None => None,
    }
}

impl View for Credentials {
    type V = CredentialsView;

    open spec fn view(&self) -> CredentialsView {
        CredentialsView {
            tuple: self.tuple(),
            id: text_of(self.id),
            filepath: text_of(self.filepath),
        }
    }
}

impl CredentialsView {
    /// Both the identifier and the file path are present.
    pub open spec fn is_record(self) -> bool {
        self.id is Some && self.filepath is Some
    }

    /// The row that a full set of credentials describes.
    pub open spec fn record(self) -> ImageRecord
        recommends
            self.is_record(),
    {
        ImageRecord { tuple: self.tuple, id: self.id->0, filepath: self.filepath->0 }
    }
}

impl Clone for Credentials {
    fn clone(&self) -> (copy: Self)
        ensures
            copy@ == self@,
    {
        Credentials {
            organization: self.organization.clone(),
            username: self.username.clone(),
            mission: self.mission.clone(),
            id: clone_text(&self.id),
            filepath: clone_text(&self.filepath),
        }
    }
}

/// A copy of an optional text field.
fn clone_text(field: &Option<String>) -> (copy: Option<String>)
    ensures
        text_of(copy) == text_of(*field),
{
    match field {
        Some(text) => Some(text.clone()),
        None => None,
    }
}

impl Credentials {
    /// The identity triple these credentials assert.
    pub open spec fn tuple(&self) -> IdentityTuple {
        IdentityTuple {
            organization: self.organization@,
            username: self.username@,
            mission: self.mission@,
        }
    }

    /// Credentials that carry the identity alone, as a query does.
    pub fn new(organization: String, username: String, mission: String) -> (creds: Self)
        ensures
            creds@ == (CredentialsView {
                tuple: IdentityTuple {
                    organization: organization@,
                    username: username@,
                    mission: mission@,
                },
                id: None,
                filepath: None,
            }),
    {
        Credentials { organization, username, mission, id: None, filepath: None }
    }

    /// The credentials of one stored image: this identity with the image's
    /// identifier and file path.
    pub fn for_image(&self, id: String, filepath: String) -> (creds: Self)
        ensures
            creds@ == (CredentialsView {
                tuple: self.tuple(),
                id: Some(id@),
                filepath: Some(filepath@),
            }),
    {
        Credentials {
            organization: self.organization.clone(),
            username: self.username.clone(),
            mission: self.mission.clone(),
            id: Some(id),
            filepath: Some(filepath),
        }
    }

    /// Whether two sets of credentials assert the same identity triple.
    pub fn same_tuple(&self, other: &Credentials) -> (same: bool)
        ensures
            same == (self.tuple() == other.tuple()),
    {
        self.organization == other.organization && self.username == other.username
            && self.mission == other.mission
    }
}

} // verus!
