//! The records of the catalog and the request bodies that create or change
//! them.
use vstd::prelude::*;

verus! {

/// Unique id of a fish, assigned by the store when the fish is inserted.
#[derive(Clone, Copy, Debug, PartialEq, Eq, Structural, Hash)]
pub struct FishId(pub u32);

/// Opaque token naming a user session, generated by the store at login.
#[derive(Debug)]
pub struct SessionId(pub String);

impl View for SessionId {
    type V = Seq<char>;

    open spec fn view(&self) -> Seq<char> {
        self.0@
    }
}

impl SessionId {
    /// Copy of the token.
    pub fn duplicate(&self) -> (r: SessionId)
        ensures
            r@ == self@,
    {
        SessionId(self.0.clone())
    }

    /// The token as text.
    pub fn as_str(&self) -> (r: &str)
        ensures
            r@ == self@,
    {
        self.0.as_str()
    }
}

/// A weight in kilograms, held as the bit pattern of an IEEE-754 double read
/// as a signed 64-bit integer, the form in which the database keeps it, so
/// that it passes through the store unchanged.
#[derive(Clone, Copy, Debug, PartialEq, Eq, Structural)]
pub struct WeightKg(pub i64);

/// The descriptive fields of a fish: everything but its id.
pub struct FishFields {
    pub name: Seq<char>,
    pub species: Seq<char>,
    pub age: u32,
    pub weight: i64,
}

/// What a [`Fish`] holds.
pub struct FishView {
    pub id: u32,
    pub fields: FishFields,
}

/// Just keep swimming swimming swimming...
#[derive(Debug)]
pub struct Fish {
    pub id: FishId,
    pub name: String,
    pub species: String,
    pub age: u32,
    pub weight_kg: WeightKg,
}

impl View for Fish {
    type V = FishView;

    open spec fn view(&self) -> FishView {
        FishView {
            id: self.id.0,
            fields: FishFields {
                name: self.name@,
                species: self.species@,
                age: self.age,
                weight: self.weight_kg.0,
            },
        }
    }
}

/// Body of a request that creates a fish.
#[derive(Debug)]
pub struct CreateFishRequest {
    pub name: String,
    pub species: String,
    pub age: u32,
    pub weight_kg: WeightKg,
}

impl View for CreateFishRequest {
    type V = FishFields;

    open spec fn view(&self) -> FishFields {
        FishFields {
            name: self.name@,
            species: self.species@,
            age: self.age,
            weight: self.weight_kg.0,
        }
    }
}

/// The fields that a partial update replaces; `None` keeps the stored value.
pub struct FishPatch {
    pub name: Option<Seq<char>>,
    pub species: Option<Seq<char>>,
    pub age: Option<u32>,
    pub weight: Option<i64>,
}

/// Body of a request that changes some fields of a fish.
#[derive(Debug)]
pub struct UpdateFishRequest {
    pub name: Option<String>,
    pub species: Option<String>,
    pub age: Option<u32>,
    pub weight_kg: Option<WeightKg>,
}

pub open spec fn opt_view(o: Option<String>) -> Option<Seq<char>> {
    match o {
        Some(s) => Some(s@),
        None => None,
    }
}

impl View for UpdateFishRequest {
    type V = FishPatch;

    open spec fn view(&self) -> FishPatch {
        FishPatch {
            name: opt_view(self.name),
            species: opt_view(self.species),
            age: self.age,
            weight: match self.weight_kg {
                Some(w) => Some(w.0),
                None => None,
            },
        }
    }
}

impl FishPatch {
    /// A patch that changes nothing.
    pub open spec fn is_empty(self) -> bool {
        self.name is None && self.species is None && self.age is None && self.weight is None
    }
}

impl FishFields {
    /// The fields after `p`: each field that `p` holds replaces the stored
    /// one, every other field is kept.
    pub open spec fn patched(self, p: FishPatch) -> FishFields {
        FishFields {
            name: match p.name {
                Some(n) => n,
                None => self.name,
            },
            species: match p.species {
                Some(s) => s,
                None => self.species,
            },
            age: match p.age {
                Some(a) => a,
                None => self.age,
            },
            weight: match p.weight {
                Some(w) => w,
                None => self.weight,
            },
        }
    }
}

/// Applies a partial update to the fields of `fish`, keeping its id.
pub fn apply_update(fish: Fish, body: UpdateFishRequest) -> (r: Fish)
    ensures
        r@.id == fish@.id,
        r@.fields == fish@.fields.patched(body@),
{
    Fish {
        id: fish.id,
        name: match body.name {
            Some(n) => n,
            None => fish.name,
        },
        species: match body.species {
            Some(s) => s,
            None => fish.species,
        },
        age: match body.age {
            Some(a) => a,
            None => fish.age,
        },
        weight_kg: match body.weight_kg {
            Some(w) => w,
            None => fish.weight_kg,
        },
    }
}

/// Response body of a login: the new session's token and when it expires.
#[derive(Debug)]
pub struct LoginResponse {
    pub id: SessionId,
    pub expires_at: String,
}

} // verus!
