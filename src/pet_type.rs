use vstd::prelude::*;

verus! {

/// A kind of pet; it carries no audit envelope.
#[derive(Clone, Debug)]
pub struct PetType {
    pub pet_type_id: Option<i64>,
    pub color: String,
}

#[derive(Clone, Debug)]
pub struct PetTypeCreateBo {
    pub color: String,
}

#[derive(Clone, Debug)]
pub struct PetTypeUpdateBo {
    pub pet_type_id: Option<i64>,
    pub color: String,
}

#[derive(Clone, Debug)]
pub struct PetTypeListVo {
    pub pet_type_id: i64,
    pub color: String,
}

impl PetType {
    pub fn from_create_bo(bo: PetTypeCreateBo) -> (r: PetType)
        ensures
            r.pet_type_id is None,
            r.color == bo.color,
    {
        PetType { pet_type_id: None, color: bo.color }
    }

    pub fn from_update_bo(&mut self, bo: PetTypeUpdateBo)
        ensures
            final(self).pet_type_id == bo.pet_type_id,
            final(self).color == bo.color,
    {
        self.pet_type_id = bo.pet_type_id;
        self.color = bo.color;
    }

    /// The row that an update writes back, given the row that storage handed
    /// back: nothing for a missing row, otherwise the row with `bo` applied.
    pub fn apply_update(row: Option<PetType>, bo: PetTypeUpdateBo) -> (r: Option<PetType>)
        ensures
            row is None ==> r is None,
            row is Some ==> (r matches Some(t) && t.pet_type_id == bo.pet_type_id && t.color
                == bo.color),
    {
        match row {
            Some(x) => {
                let mut x = x;
                x.from_update_bo(bo);
                Some(x)
            },
            None => None,
        }
    }

    pub fn to_list_vo(&self) -> (r: PetTypeListVo)
        requires
            self.pet_type_id is Some,
        ensures
            Some(r.pet_type_id) == self.pet_type_id,
            r.color@ == self.color@,
    {
        PetTypeListVo { pet_type_id: self.pet_type_id.unwrap(), color: self.color.clone() }
    }
}

} // verus!
