//! The category service: create, list, read, update, soft delete,
//! hard delete, and a name filter, over the category table.
//!
//! Soft deletion is a `deleted_at` timestamp; a soft-deleted category
//! is excluded from listing and filtering but still readable by id.
//! Listing is by creation (insertion) order, newest first.

use vstd::prelude::*;

use crate::ids::new_uuid;
use crate::query::{name_matches, name_matches_ci};
use crate::ApiError;

verus! {

/// A stored category row.
#[derive(Debug)]
pub struct Category {
    pub id: u128,
    pub name: String,
    pub description: Option<String>,
    pub created_at: Option<u64>,
    pub updated_at: Option<u64>,
    pub deleted_at: Option<u64>,
}

/// Body of the category creation endpoint.
#[derive(Debug)]
pub struct CreateCategory {
    pub name: String,
    pub description: Option<String>,
}

/// Body of the category update endpoint; an absent field keeps the
/// stored value.
#[derive(Debug)]
pub struct UpdateCategoryRequest {
    pub name: Option<String>,
    pub description: Option<String>,
}

/// The name filter of the category filter endpoint.
#[derive(Debug)]
pub struct CategoryFilter {
    pub name: Option<String>,
}

impl Category {
    /// A field-for-field copy of this row.
    pub fn clone_row(&self) -> (r: Category)
        ensures
            r == *self,
    {
        Category {
            id: self.id,
            name: self.name.clone(),
            description: match &self.description {
                Some(d) => Some(d.clone()),
                None => None,
            },
            created_at: self.created_at,
            updated_at: self.updated_at,
            deleted_at: self.deleted_at,
        }
    }
}

/// Whether some row carries this id.
pub open spec fn has_category_id(rows: Seq<Category>, id: u128) -> bool {
    exists|i: int| 0 <= i < rows.len() && rows[i].id == id
}

/// The listing of a category sequence: the rows that are not soft
/// deleted, newest (last inserted) first.
pub open spec fn spec_list_categories(rows: Seq<Category>) -> Seq<Category>
    decreases rows.len(),
{
    if rows.len() == 0 {
        Seq::empty()
    } else if rows[0].deleted_at is None {
        spec_list_categories(rows.drop_first()) + seq![rows[0]]
    } else {
        spec_list_categories(rows.drop_first())
    }
}

/// The filtered listing: as the listing, restricted to names that
/// contain the query case-insensitively.
pub open spec fn spec_filter_categories(rows: Seq<Category>, q: Seq<char>) -> Seq<Category>
    decreases rows.len(),
{
    if rows.len() == 0 {
        Seq::empty()
    } else if rows[0].deleted_at is None && name_matches(rows[0].name@, q) {
        spec_filter_categories(rows.drop_first(), q) + seq![rows[0]]
    } else {
        spec_filter_categories(rows.drop_first(), q)
    }
}

/// The categories relation: rows with unique ids.
pub struct CategoryTable {
    rows: Vec<Category>,
}

impl View for CategoryTable {
    type V = Seq<Category>;

    closed spec fn view(&self) -> Seq<Category> {
        self.rows@
    }
}

impl CategoryTable {
    /// Unique ids.
    pub open spec fn wf(self) -> bool {
        forall|i: int, j: int| 0 <= i < j < self@.len() ==> self@[i].id != self@[j].id
    }

    /// An empty categories relation.
    pub fn new() -> (r: CategoryTable)
        ensures
            r@ == Seq::<Category>::empty(),
            r.wf(),
    {
        CategoryTable { rows: Vec::new() }
    }

    fn find_by_id(&self, id: u128) -> (r: Option<usize>)
        ensures
            match r {
                Some(i) => i < self@.len() && self@[i as int].id == id,
                None => !has_category_id(self@, id),
            },
    {
        let mut idx: usize = 0;
        while idx < self.rows.len()
            invariant
                idx <= self.rows@.len(),
                forall|k: int| 0 <= k < idx ==> self.rows@[k].id != id,
            decreases self.rows@.len() - idx,
        {
            if self.rows[idx].id == id {
                return Some(idx);
            }
            idx += 1;
        }
        None
    }

    /// Create a category under a given fresh id, stamped with `now`.
    /// A colliding id is an internal fault and changes nothing.
    pub fn create_category_with_id(&mut self, data: &CreateCategory, id: u128, now: u64) -> (r:
        Result<Category, ApiError>)
        requires
            old(self).wf(),
        ensures
            final(self).wf(),
            r is Err ==> final(self)@ == old(self)@ && r == Err::<Category, ApiError>(
                ApiError::Internal,
            ),
            has_category_id(old(self)@, id) <==> r is Err,
            r is Ok ==> {
                &&& final(self)@.len() == old(self)@.len() + 1
                &&& final(self)@.subrange(0, old(self)@.len() as int) == old(self)@
                &&& final(self)@.last() == r.unwrap()
                &&& r.unwrap().id == id
                &&& r.unwrap().name@ == data.name@
                &&& (match (r.unwrap().description, data.description) {
                    (Some(a), Some(b)) => a@ == b@,
                    (None, None) => true,
                    _ => false,
                })
                &&& r.unwrap().created_at == Some(now)
                &&& r.unwrap().updated_at == Some(now)
                &&& r.unwrap().deleted_at is None
            },
    {
        if self.find_by_id(id).is_some() {
            return Err(ApiError::Internal);
        }
        let row = Category {
            id,
            name: data.name.clone(),
            description: match &data.description {
                Some(d) => Some(d.clone()),
                None => None,
            },
            created_at: Some(now),
            updated_at: Some(now),
            deleted_at: None,
        };
        let out = row.clone_row();
        self.rows.push(row);
        proof {
            assert(final(self)@.subrange(0, old(self)@.len() as int) =~= old(self)@);
        }
        Ok(out)
    }

    /// Create a category under a freshly drawn random id.
    pub fn create_category(&mut self, data: &CreateCategory, now: u64) -> (r: Result<
        Category,
        ApiError,
    >)
        requires
            old(self).wf(),
        ensures
            final(self).wf(),
            r is Err ==> final(self)@ == old(self)@ && r == Err::<Category, ApiError>(
                ApiError::Internal,
            ),
            r is Ok ==> {
                &&& final(self)@.len() == old(self)@.len() + 1
                &&& final(self)@.subrange(0, old(self)@.len() as int) == old(self)@
                &&& final(self)@.last() == r.unwrap()
                &&& r.unwrap().name@ == data.name@
                &&& r.unwrap().created_at == Some(now)
                &&& r.unwrap().updated_at == Some(now)
                &&& r.unwrap().deleted_at is None
            },
    {
        let id = new_uuid();
        self.create_category_with_id(data, id, now)
    }

    /// The categories that are not soft deleted, newest first.
    pub fn list_categories(&self) -> (r: Vec<Category>)
        ensures
            r@ == spec_list_categories(self@),
    {
        let mut r: Vec<Category> = Vec::new();
        let mut j: usize = self.rows.len();
        proof {
            assert(self.rows@.skip(j as int) =~= Seq::<Category>::empty());
        }
        while j > 0
            invariant
                j <= self.rows@.len(),
                r@ == spec_list_categories(self@.skip(j as int)),
            decreases j,
        {
            j = j - 1;
            proof {
                assert(self@.skip(j as int).drop_first() =~= self@.skip(j as int + 1));
                assert(self@.skip(j as int)[0] == self@[j as int]);
            }
            if self.rows[j].deleted_at.is_none() {
                r.push(self.rows[j].clone_row());
            }
        }
        proof {
            assert(self@.skip(0) =~= self@);
        }
        r
    }

    /// The categories whose names contain the query, newest first; an
    /// absent query filters nothing away.
    pub fn filter_categories(&self, filter: &CategoryFilter) -> (r: Vec<Category>)
        ensures
            match filter.name {
                Some(q) => r@ == spec_filter_categories(self@, q@),
                None => r@ == spec_list_categories(self@),
            },
    {
        let q = match &filter.name {
            Some(q) => q,
            None => {
                return self.list_categories();
            },
        };
        let mut r: Vec<Category> = Vec::new();
        let mut j: usize = self.rows.len();
        proof {
            assert(self.rows@.skip(j as int) =~= Seq::<Category>::empty());
        }
        while j > 0
            invariant
                j <= self.rows@.len(),
                r@ == spec_filter_categories(self@.skip(j as int), q@),
            decreases j,
        {
            j = j - 1;
            proof {
                assert(self@.skip(j as int).drop_first() =~= self@.skip(j as int + 1));
                assert(self@.skip(j as int)[0] == self@[j as int]);
            }
            if self.rows[j].deleted_at.is_none() && name_matches_ci(
                self.rows[j].name.as_str(),
                q.as_str(),
            ) {
                r.push(self.rows[j].clone_row());
            }
        }
        proof {
            assert(self@.skip(0) =~= self@);
        }
        r
    }

    /// Read a category by id, soft deleted or not; an unknown id is
    /// not found.
    pub fn get_category_by_id(&self, id: u128) -> (r: Result<Category, ApiError>)
        ensures
            !has_category_id(self@, id) <==> r == Err::<Category, ApiError>(ApiError::NotFound),
            r is Err ==> r == Err::<Category, ApiError>(ApiError::NotFound),
            r is Ok ==> exists|i: int|
                0 <= i < self@.len() && #[trigger] self@[i] == r.unwrap() && self@[i].id == id,
    {
        match self.find_by_id(id) {
            Some(i) => Ok(self.rows[i].clone_row()),
            None => Err(ApiError::NotFound),
        }
    }

    /// Mark a category deleted at `now`. Only a present, not yet
    /// deleted category can be marked; anything else is not found and
    /// changes nothing.
    pub fn soft_delete_category(&mut self, id: u128, now: u64) -> (r: Result<(), ApiError>)
        requires
            old(self).wf(),
        ensures
            final(self).wf(),
            r is Err ==> final(self)@ == old(self)@ && r == Err::<(), ApiError>(ApiError::NotFound),
            !has_category_id(old(self)@, id) ==> r is Err,
            forall|i: int|
                0 <= i < old(self)@.len() && (#[trigger] old(self)@[i]).id == id ==> {
                    &&& (old(self)@[i].deleted_at is Some ==> r is Err)
                    &&& (old(self)@[i].deleted_at is None ==> r is Ok && final(self)@ == old(self)@.update(
                        i,
                        Category {
                            deleted_at: Some(now),
                            ..old(self)@[i]
                        },
                    ))
                },
    {
        let i = match self.find_by_id(id) {
            Some(i) => i,
            None => {
                return Err(ApiError::NotFound);
            },
        };
        if self.rows[i].deleted_at.is_some() {
            return Err(ApiError::NotFound);
        }
        let row = Category {
            id: self.rows[i].id,
            name: self.rows[i].name.clone(),
            description: match &self.rows[i].description {
                Some(d) => Some(d.clone()),
                None => None,
            },
            created_at: self.rows[i].created_at,
            updated_at: self.rows[i].updated_at,
            deleted_at: Some(now),
        };
        self.rows[i] = row;
        Ok(())
    }

    /// Update name and description of a category that is not soft
    /// deleted, stamping `updated_at`; an absent field keeps the
    /// stored value. An unknown or soft-deleted id is not found and
    /// changes nothing.
    pub fn update_category(&mut self, id: u128, payload: &UpdateCategoryRequest, now: u64) -> (r:
        Result<(), ApiError>)
        requires
            old(self).wf(),
        ensures
            final(self).wf(),
            r is Err ==> final(self)@ == old(self)@ && r == Err::<(), ApiError>(ApiError::NotFound),
            !has_category_id(old(self)@, id) ==> r is Err,
            forall|i: int|
                0 <= i < old(self)@.len() && (#[trigger] old(self)@[i]).id == id ==> {
                    &&& (old(self)@[i].deleted_at is Some ==> r is Err)
                    &&& (old(self)@[i].deleted_at is None ==> r is Ok && {
                        &&& final(self)@.len() == old(self)@.len()
                        &&& final(self)@[i].id == id
                        &&& final(self)@[i].name@ == (if payload.name is Some {
                            payload.name.unwrap()@
                        } else {
                            old(self)@[i].name@
                        })
                        &&& (match (final(self)@[i].description, payload.description) {
                            (Some(a), Some(b)) => a@ == b@,
                            (a, None) => a == old(self)@[i].description,
                            _ => false,
                        })
                        &&& final(self)@[i].created_at == old(self)@[i].created_at
                        &&& final(self)@[i].updated_at == Some(now)
                        &&& final(self)@[i].deleted_at is None
                        &&& (forall|k: int|
                            0 <= k < final(self)@.len() && k != i ==> #[trigger] final(self)@[k]
                                == old(self)@[k])
                    })
                },
    {
        let i = match self.find_by_id(id) {
            Some(i) => i,
            None => {
                return Err(ApiError::NotFound);
            },
        };
        if self.rows[i].deleted_at.is_some() {
            return Err(ApiError::NotFound);
        }
        let name = match &payload.name {
            Some(n) => n.clone(),
            None => self.rows[i].name.clone(),
        };
        let description = match &payload.description {
            Some(d) => Some(d.clone()),
            None => match &self.rows[i].description {
                Some(d) => Some(d.clone()),
                None => None,
            },
        };
        let row = Category {
            id: self.rows[i].id,
            name,
            description,
            created_at: self.rows[i].created_at,
            updated_at: Some(now),
            deleted_at: None,
        };
        self.rows[i] = row;
        Ok(())
    }

    /// Remove a category's row outright, soft deleted or not; an
    /// unknown id is not found.
    pub fn hard_delete_category(&mut self, id: u128) -> (r: Result<(), ApiError>)
        requires
            old(self).wf(),
        ensures
            final(self).wf(),
            r is Err ==> final(self)@ == old(self)@ && r == Err::<(), ApiError>(ApiError::NotFound),
            !has_category_id(old(self)@, id) <==> r is Err,
            forall|i: int|
                0 <= i < old(self)@.len() && (#[trigger] old(self)@[i]).id == id ==> r is Ok
                    && final(self)@ == old(self)@.remove(i),
    {
        let i = match self.find_by_id(id) {
            Some(i) => i,
            None => {
                return Err(ApiError::NotFound);
            },
        };
        self.rows.remove(i);
        Ok(())
    }
}

/// A soft-deleted category is hidden from the listing yet still
/// reachable by id: no listed row carries its id, while some row of
/// the table does.
pub proof fn lemma_soft_deleted_hidden_but_kept(rows: Seq<Category>, i: int)
    requires
        0 <= i < rows.len(),
        rows[i].deleted_at is Some,
    ensures
        forall|k: int|
            0 <= k < spec_list_categories(rows).len() ==> (#[trigger] spec_list_categories(
                rows,
            )[k]) != rows[i],
        has_category_id(rows, rows[i].id),
    decreases rows.len(),
{
    assert(has_category_id(rows, rows[i].id));
    lemma_list_members(rows);
}

/// Every listed category is a live row of the table.
pub proof fn lemma_list_members(rows: Seq<Category>)
    ensures
        forall|k: int|
            0 <= k < spec_list_categories(rows).len() ==> (#[trigger] spec_list_categories(
                rows,
            )[k]).deleted_at is None && exists|j: int|
                0 <= j < rows.len() && rows[j] == spec_list_categories(rows)[k],
    decreases rows.len(),
{
    if rows.len() > 0 {
        lemma_list_members(rows.drop_first());
        let rest = spec_list_categories(rows.drop_first());
        assert forall|k: int| 0 <= k < rest.len() implies (#[trigger] rest[k]).deleted_at is None
            && exists|j: int| 0 <= j < rows.len() && rows[j] == rest[k] by {
            let j0 = choose|j: int| 0 <= j < rows.drop_first().len() && rows.drop_first()[j] == rest[k];
            assert(rows[j0 + 1] == rest[k]);
        }
    }
}

} // verus!
