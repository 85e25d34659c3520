use vstd::prelude::*;

verus! {

/// The role a participant registers under.  Each role carries a fixed set
/// of capabilities, given by [`role_has_capability`].
#[derive(Clone, Copy, Debug, PartialEq, Eq, Structural)]
pub enum ParticipantRole {
    Recycler,
    Collector,
    Manufacturer,
}

/// A capability that a role may or may not grant.
#[derive(Clone, Copy, Debug, PartialEq, Eq, Structural)]
pub enum Capability {
    /// Collect recyclable materials in the field.
    Collect,
    /// Process and thereby verify submitted materials.
    ProcessRecyclables,
    /// Manufacture goods from recycled material.
    Manufacture,
}

/// The capability table: Recycler -> {collect, process recyclables},
/// Collector -> {collect}, Manufacturer -> {manufacture}.
pub open spec fn role_has_capability(role: ParticipantRole, cap: Capability) -> bool {
    match role {
        ParticipantRole::Recycler => cap == Capability::Collect
            || cap == Capability::ProcessRecyclables,
        ParticipantRole::Collector => cap == Capability::Collect,
        ParticipantRole::Manufacturer => cap == Capability::Manufacture,
    }
}

impl ParticipantRole {
    /// Whether this role grants the given capability.
    pub fn has_capability(&self, cap: Capability) -> (r: bool)
        ensures
            r == role_has_capability(*self, cap),
    {
        match (self, cap) {
            (ParticipantRole::Recycler, Capability::Collect) => true,
            (ParticipantRole::Recycler, Capability::ProcessRecyclables) => true,
            (ParticipantRole::Collector, Capability::Collect) => true,
            (ParticipantRole::Manufacturer, Capability::Manufacture) => true,
            _ => false,
        }
    }

    /// Whether this role may collect materials.
    pub fn can_collect_materials(&self) -> (r: bool)
        ensures
            r == role_has_capability(*self, Capability::Collect),
    {
        self.has_capability(Capability::Collect)
    }

    /// Whether this role may process (and hence verify) recyclables.
    pub fn can_process_recyclables(&self) -> (r: bool)
        ensures
            r == role_has_capability(*self, Capability::ProcessRecyclables),
    {
        self.has_capability(Capability::ProcessRecyclables)
    }

    /// Whether this role may manufacture.
    pub fn can_manufacture(&self) -> (r: bool)
        ensures
            r == role_has_capability(*self, Capability::Manufacture),
    {
        self.has_capability(Capability::Manufacture)
    }
}

/// The kind of recyclable material a batch consists of.
#[derive(Clone, Copy, Debug, PartialEq, Eq, Structural)]
pub enum WasteType {
    Paper,
    PetPlastic,
    Plastic,
    Metal,
    Glass,
}

/// Per-type reward multiplier.  The table is fixed by the worked reward
/// examples: a kilogram of paper is worth 10 points, of plastic 20, of PET
/// plastic 30, of metal 50, and of glass 10.
pub open spec fn type_multiplier(t: WasteType) -> int {
    match t {
        WasteType::Paper => 1,
        WasteType::PetPlastic => 3,
        WasteType::Plastic => 2,
        WasteType::Metal => 5,
        WasteType::Glass => 1,
    }
}

/// The display name of a waste type.
pub open spec fn waste_name(t: WasteType) -> Seq<char> {
    match t {
        WasteType::Paper => "Paper"@,
        WasteType::PetPlastic => "PET Plastic"@,
        WasteType::Plastic => "Plastic"@,
        WasteType::Metal => "Metal"@,
        WasteType::Glass => "Glass"@,
    }
}

impl WasteType {
    /// The reward multiplier of this waste type.
    pub fn multiplier(&self) -> (r: u64)
        ensures
            r == type_multiplier(*self),
    {
        match self {
            WasteType::Paper => 1,
            WasteType::PetPlastic => 3,
            WasteType::Plastic => 2,
            WasteType::Metal => 5,
            WasteType::Glass => 1,
        }
    }

    /// The display name of this waste type.
    pub fn as_str(&self) -> (r: &'static str)
        ensures
            r@ == waste_name(*self),
            r@.len() > 0,
    {
        proof {
            reveal_strlit("Paper");
            reveal_strlit("PET Plastic");
            reveal_strlit("Plastic");
            reveal_strlit("Metal");
            reveal_strlit("Glass");
        }
        match self {
            WasteType::Paper => "Paper",
            WasteType::PetPlastic => "PET Plastic",
            WasteType::Plastic => "Plastic",
            WasteType::Metal => "Metal",
            WasteType::Glass => "Glass",
        }
    }
}

/// Why an operation was refused.  Every failing operation leaves the
/// ledger exactly as it found it.
#[derive(Clone, Copy, Debug, PartialEq, Eq, Structural)]
pub enum Error {
    /// The caller did not authenticate as the identity the operation acts
    /// for.
    AuthError,
    /// The referenced participant or material does not exist, or a piece
    /// of configuration that was asked for has not been set.
    NotFoundError,
    /// The participant exists but has been deregistered.
    NotRegisteredError,
    /// The caller is registered but its role lacks the required
    /// capability, or it is not the configured administrator.
    ForbiddenError,
    /// A checked arithmetic accumulation would exceed its value range.
    OverflowError,
    /// The configuration was initialized before.
    AlreadyInitializedError,
    /// The collector and owner percentages would sum to more than 100.
    InvalidPercentageError,
}

} // verus!
