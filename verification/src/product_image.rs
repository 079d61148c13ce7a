//! The product-image service: attach, list, update and delete image
//! rows, over the image table.
//!
//! The table keeps the primary-flag invariant: at most one image per
//! product is primary. Making an image primary unsets, in the same
//! operation, every other image of that product.

use vstd::prelude::*;

use crate::ids::new_uuid;
use crate::ApiError;

verus! {

/// A stored product-image row.
#[derive(Debug)]
pub struct ProductImage {
    pub id: u128,
    pub product_id: u128,
    pub image_url: String,
    pub is_primary: bool,
    pub created_at: u64,
    pub updated_at: u64,
}

/// Body of the image upload endpoint.
#[derive(Debug)]
pub struct CreateProductImage {
    pub product_id: u128,
    pub image_url: String,
    pub is_primary: Option<bool>,
}

/// Body of the image update endpoint; an absent flag keeps the stored
/// value.
#[derive(Debug)]
pub struct UpdateProductImage {
    pub is_primary: Option<bool>,
}

impl ProductImage {
    /// A field-for-field copy of this row.
    pub fn clone_row(&self) -> (r: ProductImage)
        ensures
            r == *self,
    {
        ProductImage {
            id: self.id,
            product_id: self.product_id,
            image_url: self.image_url.clone(),
            is_primary: self.is_primary,
            created_at: self.created_at,
            updated_at: self.updated_at,
        }
    }
}

/// Whether some row carries this id.
pub open spec fn has_image_id(rows: Seq<ProductImage>, id: u128) -> bool {
    exists|i: int| 0 <= i < rows.len() && rows[i].id == id
}

/// At most one primary image per product, and unique ids.
pub open spec fn image_rows_wf(rows: Seq<ProductImage>) -> bool {
    forall|i: int, j: int|
        0 <= i < j < rows.len() ==> rows[i].id != rows[j].id && !(rows[i].product_id
            == rows[j].product_id && rows[i].is_primary && rows[j].is_primary)
}

/// The table with every image of one product unset.
pub open spec fn spec_unset_primaries(rows: Seq<ProductImage>, product: u128) -> Seq<ProductImage> {
    Seq::new(
        rows.len(),
        |i: int|
            if rows[i].product_id == product && rows[i].is_primary {
                ProductImage { is_primary: false, ..rows[i] }
            } else {
                rows[i]
            },
    )
}

/// The table after making row `i` the primary image of its product:
/// row `i` is set, every other image of the same product is unset,
/// everything else keeps its value.
pub open spec fn spec_set_primary(rows: Seq<ProductImage>, i: int) -> Seq<ProductImage> {
    Seq::new(
        rows.len(),
        |j: int|
            if j == i {
                ProductImage { is_primary: true, ..rows[i] }
            } else if rows[j].product_id == rows[i].product_id && rows[j].is_primary {
                ProductImage { is_primary: false, ..rows[j] }
            } else {
                rows[j]
            },
    )
}

/// A product's primary images, in stored order.
pub open spec fn spec_primary_images(rows: Seq<ProductImage>, product: u128) -> Seq<ProductImage>
    decreases rows.len(),
{
    if rows.len() == 0 {
        Seq::empty()
    } else {
        let rest = spec_primary_images(rows.drop_last(), product);
        if rows.last().product_id == product && rows.last().is_primary {
            rest + seq![rows.last()]
        } else {
            rest
        }
    }
}

/// A product's non-primary images, in stored order.
pub open spec fn spec_secondary_images(rows: Seq<ProductImage>, product: u128) -> Seq<ProductImage>
    decreases rows.len(),
{
    if rows.len() == 0 {
        Seq::empty()
    } else {
        let rest = spec_secondary_images(rows.drop_last(), product);
        if rows.last().product_id == product && !rows.last().is_primary {
            rest + seq![rows.last()]
        } else {
            rest
        }
    }
}

/// The product-images relation.
pub struct ImageTable {
    rows: Vec<ProductImage>,
}

impl View for ImageTable {
    type V = Seq<ProductImage>;

    closed spec fn view(&self) -> Seq<ProductImage> {
        self.rows@
    }
}

impl ImageTable {
    /// At most one primary per product, unique ids.
    pub open spec fn wf(self) -> bool {
        image_rows_wf(self@)
    }

    /// An empty image relation.
    pub fn new() -> (r: ImageTable)
        ensures
            r@ == Seq::<ProductImage>::empty(),
            r.wf(),
    {
        ImageTable { rows: Vec::new() }
    }

    fn find_by_id(&self, id: u128) -> (r: Option<usize>)
        ensures
            match r {
                Some(i) => i < self@.len() && self@[i as int].id == id,
                None => !has_image_id(self@, id),
            },
    {
        let mut idx: usize = 0;
        while idx < self.rows.len()
            invariant
                idx <= self.rows@.len(),
                forall|k: int| 0 <= k < idx ==> self.rows@[k].id != id,
            decreases self.rows@.len() - idx,
        {
            if self.rows[idx].id == id {
                return Some(idx);
            }
            idx += 1;
        }
        None
    }

    fn unset_primaries(&mut self, product: u128)
        ensures
            final(self)@ == spec_unset_primaries(old(self)@, product),
    {
        let mut j: usize = 0;
        while j < self.rows.len()
            invariant
                j <= self.rows@.len(),
                self.rows@.len() == old(self).rows@.len(),
                forall|m: int|
                    0 <= m < j ==> self.rows@[m] == #[trigger] spec_unset_primaries(
                        old(self).rows@,
                        product,
                    )[m],
                forall|m: int| j <= m < self.rows@.len() ==> self.rows@[m] == old(self).rows@[m],
            decreases self.rows@.len() - j,
        {
            if self.rows[j].product_id == product && self.rows[j].is_primary {
                let row = ProductImage {
                    id: self.rows[j].id,
                    product_id: self.rows[j].product_id,
                    image_url: self.rows[j].image_url.clone(),
                    is_primary: false,
                    created_at: self.rows[j].created_at,
                    updated_at: self.rows[j].updated_at,
                };
                self.rows[j] = row;
            }
            j += 1;
        }
        proof {
            assert(final(self)@ =~= spec_unset_primaries(old(self)@, product));
        }
    }

    /// Attach an image under a given fresh id. Marked primary, it
    /// displaces the product's previous primary in the same
    /// operation; a colliding fresh id is an internal fault and
    /// changes nothing.
    pub fn create_product_image_with_id(
        &mut self,
        image: &CreateProductImage,
        now: u64,
        fresh_id: u128,
    ) -> (r: Result<ProductImage, ApiError>)
        requires
            old(self).wf(),
        ensures
            final(self).wf(),
            r is Err ==> final(self)@ == old(self)@ && r == Err::<ProductImage, ApiError>(
                ApiError::Internal,
            ),
            has_image_id(old(self)@, fresh_id) <==> r is Err,
            r is Ok ==> {
                &&& final(self)@ == (if image.is_primary == Some(true) {
                    spec_unset_primaries(old(self)@, image.product_id)
                } else {
                    old(self)@
                }).push(r.unwrap())
                &&& r.unwrap().id == fresh_id
                &&& r.unwrap().product_id == image.product_id
                &&& r.unwrap().image_url@ == image.image_url@
                &&& r.unwrap().is_primary == (image.is_primary == Some(true))
                &&& r.unwrap().created_at == now
                &&& r.unwrap().updated_at == now
            },
    {
        if self.find_by_id(fresh_id).is_some() {
            return Err(ApiError::Internal);
        }
        let primary = match image.is_primary {
            Some(p) => p,
            None => false,
        };
        if primary {
            self.unset_primaries(image.product_id);
        }
        let row = ProductImage {
            id: fresh_id,
            product_id: image.product_id,
            image_url: image.image_url.clone(),
            is_primary: primary,
            created_at: now,
            updated_at: now,
        };
        let out = row.clone_row();
        self.rows.push(row);
        Ok(out)
    }

    /// Attach an image under a freshly drawn random id.
    pub fn create_product_image(&mut self, image: &CreateProductImage, now: u64) -> (r: Result<
        ProductImage,
        ApiError,
    >)
        requires
            old(self).wf(),
        ensures
            final(self).wf(),
            r is Err ==> final(self)@ == old(self)@ && r == Err::<ProductImage, ApiError>(
                ApiError::Internal,
            ),
            r is Ok ==> {
                &&& final(self)@ == (if image.is_primary == Some(true) {
                    spec_unset_primaries(old(self)@, image.product_id)
                } else {
                    old(self)@
                }).push(r.unwrap())
                &&& r.unwrap().product_id == image.product_id
                &&& r.unwrap().image_url@ == image.image_url@
                &&& r.unwrap().is_primary == (image.is_primary == Some(true))
            },
    {
        let fresh_id = new_uuid();
        self.create_product_image_with_id(image, now, fresh_id)
    }

    /// A product's images, primary first, then the others in stored
    /// order.
    pub fn get_product_images(&self, product_id: u128) -> (r: Vec<ProductImage>)
        ensures
            r@ == spec_primary_images(self@, product_id) + spec_secondary_images(
                self@,
                product_id,
            ),
    {
        let mut r: Vec<ProductImage> = Vec::new();
        let mut i: usize = 0;
        proof {
            assert(r@ =~= spec_primary_images(self@.subrange(0, 0), product_id));
        }
        while i < self.rows.len()
            invariant
                i <= self.rows@.len(),
                r@ == spec_primary_images(self@.subrange(0, i as int), product_id),
            decreases self.rows@.len() - i,
        {
            proof {
                assert(self@.subrange(0, i + 1).drop_last() =~= self@.subrange(0, i as int));
                assert(self@.subrange(0, i + 1).last() == self@[i as int]);
            }
            if self.rows[i].product_id == product_id && self.rows[i].is_primary {
                r.push(self.rows[i].clone_row());
            }
            i += 1;
        }
        proof {
            assert(self@.subrange(0, self@.len() as int) =~= self@);
        }
        let ghost primaries = r@;
        let mut i: usize = 0;
        proof {
            assert(r@ =~= primaries + spec_secondary_images(self@.subrange(0, 0), product_id));
        }
        while i < self.rows.len()
            invariant
                i <= self.rows@.len(),
                r@ == primaries + spec_secondary_images(self@.subrange(0, i as int), product_id),
            decreases self.rows@.len() - i,
        {
            proof {
                assert(self@.subrange(0, i + 1).drop_last() =~= self@.subrange(0, i as int));
                assert(self@.subrange(0, i + 1).last() == self@[i as int]);
            }
            if self.rows[i].product_id == product_id && !self.rows[i].is_primary {
                r.push(self.rows[i].clone_row());
            }
            i += 1;
        }
        proof {
            assert(self@.subrange(0, self@.len() as int) =~= self@);
        }
        r
    }

    /// Update an image's primary flag; an absent flag keeps the
    /// stored value, setting it displaces the product's previous
    /// primary in the same operation. An unknown id is not found and
    /// changes nothing.
    pub fn update_product_image(&mut self, image_id: u128, update: &UpdateProductImage) -> (r:
        Result<ProductImage, ApiError>)
        requires
            old(self).wf(),
        ensures
            final(self).wf(),
            r is Err ==> final(self)@ == old(self)@ && r == Err::<ProductImage, ApiError>(
                ApiError::NotFound,
            ),
            !has_image_id(old(self)@, image_id) <==> r is Err,
            forall|i: int|
                0 <= i < old(self)@.len() && (#[trigger] old(self)@[i]).id == image_id ==> r is Ok
                    && match update.is_primary {
                    None => final(self)@ == old(self)@ && r.unwrap() == old(self)@[i],
                    Some(false) => final(self)@ == old(self)@.update(
                        i,
                        ProductImage {
                            is_primary: false,
                            ..old(self)@[i]
                        },
                    ) && r.unwrap() == final(self)@[i],
                    Some(true) => final(self)@ == spec_set_primary(old(self)@, i) && r.unwrap()
                        == final(self)@[i],
                },
    {
        let i = match self.find_by_id(image_id) {
            Some(i) => i,
            None => {
                return Err(ApiError::NotFound);
            },
        };
        match update.is_primary {
            None => Ok(self.rows[i].clone_row()),
            Some(false) => {
                let row = ProductImage {
                    id: self.rows[i].id,
                    product_id: self.rows[i].product_id,
                    image_url: self.rows[i].image_url.clone(),
                    is_primary: false,
                    created_at: self.rows[i].created_at,
                    updated_at: self.rows[i].updated_at,
                };
                let out = row.clone_row();
                self.rows[i] = row;
                Ok(out)
            },
            Some(true) => {
                let product = self.rows[i].product_id;
                let id = self.rows[i].id;
                self.unset_primaries(product);
                proof {
                    assert(self.rows@[i as int].id == id);
                }
                let row = ProductImage {
                    id: self.rows[i].id,
                    product_id: self.rows[i].product_id,
                    image_url: self.rows[i].image_url.clone(),
                    is_primary: true,
                    created_at: self.rows[i].created_at,
                    updated_at: self.rows[i].updated_at,
                };
                let out = row.clone_row();
                self.rows[i] = row;
                proof {
                    assert(final(self)@ =~= spec_set_primary(old(self)@, i as int));
                }
                Ok(out)
            },
        }
    }

    /// Remove an image's row; an unknown id is not found and changes
    /// nothing.
    pub fn delete_product_image(&mut self, image_id: u128) -> (r: Result<(), ApiError>)
        requires
            old(self).wf(),
        ensures
            final(self).wf(),
            r is Err ==> final(self)@ == old(self)@ && r == Err::<(), ApiError>(ApiError::NotFound),
            !has_image_id(old(self)@, image_id) <==> r is Err,
            forall|i: int|
                0 <= i < old(self)@.len() && (#[trigger] old(self)@[i]).id == image_id ==> r is Ok
                    && final(self)@ == old(self)@.remove(i),
    {
        match self.find_by_id(image_id) {
            Some(i) => {
                self.rows.remove(i);
                Ok(())
            },
            None => Err(ApiError::NotFound),
        }
    }
}

/// After making row `i` primary, exactly one image of its product is
/// primary: row `i` itself, every other image of that product is not.
/// In particular, where image A was primary and image B is made
/// primary, afterwards B is and A is not.
pub proof fn lemma_single_primary(rows: Seq<ProductImage>, i: int)
    requires
        0 <= i < rows.len(),
    ensures
        ({
            let out = spec_set_primary(rows, i);
            &&& out.len() == rows.len()
            &&& out[i].is_primary
            &&& out[i].id == rows[i].id
            &&& out[i].product_id == rows[i].product_id
            &&& (forall|j: int|
                0 <= j < out.len() && j != i && (#[trigger] out[j]).product_id
                    == rows[i].product_id ==> !out[j].is_primary)
        }),
{
}

} // verus!
