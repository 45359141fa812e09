//! The one error of this library: a field whose text does not have its
//! declared shape.

use vstd::prelude::*;

verus! {

/// A field that is read from text and checked against its declared shape.
#[derive(Clone, Copy, Debug, PartialEq, Eq, Structural)]
pub enum Field {
    RequestType,
    UserId,
    ShardUrl,
    PublicTariffDuration,
    PrivateTariffDuration,
    DebugDuration,
    DebugAt,
}

/// The text of `field` does not conform to its declared shape.
#[derive(Clone, Copy, Debug, PartialEq, Eq, Structural)]
pub struct FormatError {
    pub field: Field,
}

impl Field {
    /// The dotted path of the field in a request.
    pub fn path(&self) -> (r: &'static str)
        ensures
            r@ == self.spec_path(),
    {
        match self {
            Field::RequestType => "type",
            Field::UserId => "stream.user_id",
            Field::ShardUrl => "stream.shard_url",
            Field::PublicTariffDuration => "stream.public_tariff.duration",
            Field::PrivateTariffDuration => "stream.private_tariff.duration",
            Field::DebugDuration => "debug.duration",
            Field::DebugAt => "debug.at",
        }
    }

    pub open spec fn spec_path(&self) -> Seq<char> {
        match self {
            Field::RequestType => "type"@,
            Field::UserId => "stream.user_id"@,
            Field::ShardUrl => "stream.shard_url"@,
            Field::PublicTariffDuration => "stream.public_tariff.duration"@,
            Field::PrivateTariffDuration => "stream.private_tariff.duration"@,
            Field::DebugDuration => "debug.duration"@,
            Field::DebugAt => "debug.at"@,
        }
    }
}

} // verus!
