use vstd::prelude::*;
use crate::error::ErrorCode;

verus! {

/// The kinds of collected waste, coded on the wire as 0 to 3 in this order.
#[derive(Clone, Copy, Debug, PartialEq, Eq, Structural)]
pub enum MaterialType {
    Plastic,
    Glass,
    Metal,
    Paper,
}

/// The material that a code stands for, if any.
pub open spec fn material_of(value: u8) -> Option<MaterialType> {
    if value == 0 {
        Some(MaterialType::Plastic)
    } else if value == 1 {
        Some(MaterialType::Glass)
    } else if value == 2 {
        Some(MaterialType::Metal)
    } else if value == 3 {
        Some(MaterialType::Paper)
    } else {
        None
    }
}

impl MaterialType {
    /// Reads a material code; any code past the last material is refused.
    pub fn try_from(value: u8) -> (r: Result<MaterialType, ErrorCode>)
        ensures
            match material_of(value) {
                Some(m) => r == Ok::<MaterialType, ErrorCode>(m),
                None => r == Err::<MaterialType, ErrorCode>(ErrorCode::InvalidMaterialType),
            },
    {
        match value {
            0 => Ok(MaterialType::Plastic),
            1 => Ok(MaterialType::Glass),
            2 => Ok(MaterialType::Metal),
            3 => Ok(MaterialType::Paper),
            _ => Err(ErrorCode::InvalidMaterialType),
        }
    }

    /// The code of a material.
    pub fn code(&self) -> (r: u8)
        ensures
            material_of(r) == Some(*self),
    {
        match self {
            MaterialType::Plastic => 0,
            MaterialType::Glass => 1,
            MaterialType::Metal => 2,
            MaterialType::Paper => 3,
        }
    }
}

} // verus!
