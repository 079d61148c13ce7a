//! The product service: create, read, list, update, delete, soft
//! delete, the image-URL list operations, and the filtered, paginated
//! search.
//!
//! Rows are reasoned about through `ProductView`, the spec-level form
//! of a row. Search filters live rows by free text (case-insensitive
//! substring on the name), category, inclusive price range and stock,
//! in stored (creation) order, then applies the pagination window.

use vstd::prelude::*;

use crate::ids::new_uuid;
use crate::query::{
    name_matches, name_matches_ci, spec_limit, spec_offset, spec_page, effective_limit,
    effective_page,
};
use crate::ApiError;

verus! {

/// A stored product row. The price is held in minor currency units;
/// `images` is the ordered list of attached image URLs.
#[derive(Debug)]
pub struct Product {
    pub id: u128,
    pub name: String,
    pub description: Option<String>,
    pub price: u64,
    pub stock_quantity: i32,
    pub category_id: Option<u128>,
    pub created_at: u64,
    pub updated_at: Option<u64>,
    pub deleted_at: Option<u64>,
    pub images: Vec<String>,
}

/// The spec-level form of a product row.
pub struct ProductView {
    pub id: u128,
    pub name: Seq<char>,
    pub description: Option<Seq<char>>,
    pub price: u64,
    pub stock_quantity: i32,
    pub category_id: Option<u128>,
    pub created_at: u64,
    pub updated_at: Option<u64>,
    pub deleted_at: Option<u64>,
    pub images: Seq<Seq<char>>,
}

impl View for Product {
    type V = ProductView;

    open spec fn view(&self) -> ProductView {
        ProductView {
            id: self.id,
            name: self.name@,
            description: match self.description {
                Some(d) => Some(d@),
                None => None,
            },
            price: self.price,
            stock_quantity: self.stock_quantity,
            category_id: self.category_id,
            created_at: self.created_at,
            updated_at: self.updated_at,
            deleted_at: self.deleted_at,
            images: self.images.deep_view(),
        }
    }
}

/// The views of a row sequence.
pub open spec fn product_views(rows: Seq<Product>) -> Seq<ProductView> {
    Seq::new(rows.len(), |i: int| rows[i]@)
}

/// Body of the product creation endpoint.
#[derive(Debug)]
pub struct CreateProduct {
    pub name: String,
    pub description: Option<String>,
    pub price: u64,
    pub stock_quantity: i32,
    pub category_id: Option<u128>,
}

/// Body of the product update endpoint; an absent field keeps the
/// stored value. Only name, description, price and stock are
/// updatable.
#[derive(Debug)]
pub struct UpdateProduct {
    pub name: Option<String>,
    pub description: Option<String>,
    pub price: Option<u64>,
    pub stock_quantity: Option<i32>,
}

/// The search endpoint's query string.
#[derive(Debug)]
pub struct ProductQueryParams {
    pub query: Option<String>,
    pub category_id: Option<u128>,
    pub min_price: Option<u64>,
    pub max_price: Option<u64>,
    pub in_stock: Option<bool>,
    pub page: Option<u32>,
    pub limit: Option<u32>,
}

/// Whether some row carries this id.
pub open spec fn has_product_id(rows: Seq<ProductView>, id: u128) -> bool {
    exists|i: int| 0 <= i < rows.len() && rows[i].id == id
}

/// Whether a row satisfies every given filter and is not soft
/// deleted.
pub open spec fn spec_product_matches(p: ProductView, params: ProductQueryParams) -> bool {
    &&& p.deleted_at is None
    &&& (params.query matches Some(q) ==> name_matches(p.name, q@))
    &&& (params.category_id matches Some(c) ==> p.category_id == Some(c))
    &&& (params.min_price matches Some(m) ==> p.price >= m)
    &&& (params.max_price matches Some(m) ==> p.price <= m)
    &&& (params.in_stock == Some(true) ==> p.stock_quantity > 0)
}

/// The filtered result set, in stored (creation) order.
pub open spec fn spec_filtered_products(rows: Seq<ProductView>, params: ProductQueryParams) -> Seq<
    ProductView,
>
    decreases rows.len(),
{
    if rows.len() == 0 {
        Seq::empty()
    } else {
        let rest = spec_filtered_products(rows.drop_last(), params);
        if spec_product_matches(rows.last(), params) {
            rest + seq![rows.last()]
        } else {
            rest
        }
    }
}

/// The rows that are not soft deleted, in stored order.
pub open spec fn spec_live_products(rows: Seq<ProductView>) -> Seq<ProductView>
    decreases rows.len(),
{
    if rows.len() == 0 {
        Seq::empty()
    } else {
        let rest = spec_live_products(rows.drop_last());
        if rows.last().deleted_at is None {
            rest + seq![rows.last()]
        } else {
            rest
        }
    }
}

/// The pagination window over a result set: rows
/// offset .. offset + limit, where offset = (page - 1) * limit.
pub open spec fn spec_page_window(
    s: Seq<ProductView>,
    page: Option<u32>,
    limit: Option<u32>,
) -> Seq<ProductView> {
    let off = spec_offset(page, limit);
    let lim = spec_limit(limit) as int;
    if off >= s.len() {
        Seq::empty()
    } else if off + lim <= s.len() {
        s.subrange(off, off + lim)
    } else {
        s.subrange(off, s.len() as int)
    }
}

/// The whole search: filter, then paginate.
pub open spec fn spec_search_products(rows: Seq<ProductView>, params: ProductQueryParams) -> Seq<
    ProductView,
> {
    spec_page_window(spec_filtered_products(rows, params), params.page, params.limit)
}

/// An image URL list with every occurrence of one URL removed.
pub open spec fn spec_remove_url(images: Seq<Seq<char>>, url: Seq<char>) -> Seq<Seq<char>>
    decreases images.len(),
{
    if images.len() == 0 {
        Seq::empty()
    } else {
        let rest = spec_remove_url(images.drop_last(), url);
        if images.last() == url {
            rest
        } else {
            rest + seq![images.last()]
        }
    }
}

impl Product {
    /// A field-for-field copy of this row.
    pub fn clone_row(&self) -> (r: Product)
        ensures
            r@ == self@,
    {
        let mut images: Vec<String> = Vec::new();
        let mut i: usize = 0;
        while i < self.images.len()
            invariant
                i <= self.images@.len(),
                images@ == self.images@.subrange(0, i as int),
            decreases self.images@.len() - i,
        {
            images.push(self.images[i].clone());
            proof {
                assert(images@ =~= self.images@.subrange(0, i + 1));
            }
            i += 1;
        }
        proof {
            assert(images@ =~= self.images@);
            assert(images.deep_view() =~= self.images.deep_view());
        }
        Product {
            id: self.id,
            name: self.name.clone(),
            description: match &self.description {
                Some(d) => Some(d.clone()),
                None => None,
            },
            price: self.price,
            stock_quantity: self.stock_quantity,
            category_id: self.category_id,
            created_at: self.created_at,
            updated_at: self.updated_at,
            deleted_at: self.deleted_at,
            images,
        }
    }
}

/// Whether a row passes every filter of the search.
fn matches_product(p: &Product, params: &ProductQueryParams) -> (r: bool)
    ensures
        r == spec_product_matches(p@, *params),
{
    if p.deleted_at.is_some() {
        return false;
    }
    match &params.query {
        Some(q) => {
            if !name_matches_ci(p.name.as_str(), q.as_str()) {
                return false;
            }
        },
        None => {},
    }
    match params.category_id {
        Some(c) => {
            match p.category_id {
                Some(pc) => {
                    if pc != c {
                        return false;
                    }
                },
                None => {
                    return false;
                },
            }
        },
        None => {},
    }
    match params.min_price {
        Some(m) => {
            if p.price < m {
                return false;
            }
        },
        None => {},
    }
    match params.max_price {
        Some(m) => {
            if p.price > m {
                return false;
            }
        },
        None => {},
    }
    match params.in_stock {
        Some(true) => {
            if p.stock_quantity <= 0 {
                return false;
            }
        },
        _ => {},
    }
    true
}

/// The products relation: rows with unique ids.
pub struct ProductTable {
    rows: Vec<Product>,
}

impl View for ProductTable {
    type V = Seq<ProductView>;

    closed spec fn view(&self) -> Seq<ProductView> {
        product_views(self.rows@)
    }
}

impl ProductTable {
    /// Unique ids.
    pub open spec fn wf(self) -> bool {
        forall|i: int, j: int| 0 <= i < j < self@.len() ==> self@[i].id != self@[j].id
    }

    /// An empty products relation.
    pub fn new() -> (r: ProductTable)
        ensures
            r@ == Seq::<ProductView>::empty(),
            r.wf(),
    {
        let t = ProductTable { rows: Vec::new() };
        proof {
            assert(t@ =~= Seq::<ProductView>::empty());
        }
        t
    }

    fn find_by_id(&self, id: u128) -> (r: Option<usize>)
        ensures
            match r {
                Some(i) => i < self@.len() && self@[i as int].id == id,
                None => !has_product_id(self@, id),
            },
    {
        let mut idx: usize = 0;
        while idx < self.rows.len()
            invariant
                idx <= self.rows@.len(),
                forall|k: int| 0 <= k < idx ==> self@[k].id != id,
            decreases self.rows@.len() - idx,
        {
            if self.rows[idx].id == id {
                return Some(idx);
            }
            idx += 1;
        }
        None
    }

    /// Create a product under a given fresh id, stamped with `now`,
    /// with no images yet. A colliding id is an internal fault and
    /// changes nothing.
    pub fn create_product_with_id(&mut self, new_product: &CreateProduct, id: u128, now: u64) -> (r:
        Result<Product, ApiError>)
        requires
            old(self).wf(),
        ensures
            final(self).wf(),
            r is Err ==> final(self)@ == old(self)@ && r == Err::<Product, ApiError>(
                ApiError::Internal,
            ),
            has_product_id(old(self)@, id) <==> r is Err,
            r is Ok ==> {
                &&& final(self)@.len() == old(self)@.len() + 1
                &&& final(self)@.subrange(0, old(self)@.len() as int) == old(self)@
                &&& final(self)@.last() == r.unwrap()@
                &&& r.unwrap()@.id == id
                &&& r.unwrap()@.name == new_product.name@
                &&& (match (r.unwrap()@.description, new_product.description) {
                    (Some(a), Some(b)) => a == b@,
                    (None, None) => true,
                    _ => false,
                })
                &&& r.unwrap()@.price == new_product.price
                &&& r.unwrap()@.stock_quantity == new_product.stock_quantity
                &&& r.unwrap()@.category_id == new_product.category_id
                &&& r.unwrap()@.created_at == now
                &&& r.unwrap()@.updated_at == Some(now)
                &&& r.unwrap()@.deleted_at is None
                &&& r.unwrap()@.images == Seq::<Seq<char>>::empty()
            },
    {
        if self.find_by_id(id).is_some() {
            return Err(ApiError::Internal);
        }
        let row = Product {
            id,
            name: new_product.name.clone(),
            description: match &new_product.description {
                Some(d) => Some(d.clone()),
                None => None,
            },
            price: new_product.price,
            stock_quantity: new_product.stock_quantity,
            category_id: new_product.category_id,
            created_at: now,
            updated_at: Some(now),
            deleted_at: None,
            images: Vec::new(),
        };
        let out = row.clone_row();
        self.rows.push(row);
        proof {
            assert(final(self)@ =~= old(self)@ + seq![out@]);
            assert(final(self)@.subrange(0, old(self)@.len() as int) =~= old(self)@);
            assert(final(self)@.last() == out@);
        }
        Ok(out)
    }

    /// Create a product under a freshly drawn random id.
    pub fn create_product(&mut self, new_product: &CreateProduct, now: u64) -> (r: Result<
        Product,
        ApiError,
    >)
        requires
            old(self).wf(),
        ensures
            final(self).wf(),
            r is Err ==> final(self)@ == old(self)@ && r == Err::<Product, ApiError>(
                ApiError::Internal,
            ),
            r is Ok ==> {
                &&& final(self)@.len() == old(self)@.len() + 1
                &&& final(self)@.subrange(0, old(self)@.len() as int) == old(self)@
                &&& final(self)@.last() == r.unwrap()@
                &&& r.unwrap()@.name == new_product.name@
                &&& r.unwrap()@.price == new_product.price
                &&& r.unwrap()@.stock_quantity == new_product.stock_quantity
                &&& r.unwrap()@.created_at == now
                &&& r.unwrap()@.deleted_at is None
            },
    {
        let id = new_uuid();
        self.create_product_with_id(new_product, id, now)
    }

    /// Read a product by id, soft deleted or not; an unknown id is
    /// not found.
    pub fn get_product(&self, id: u128) -> (r: Result<Product, ApiError>)
        ensures
            !has_product_id(self@, id) <==> r == Err::<Product, ApiError>(ApiError::NotFound),
            r is Err ==> r == Err::<Product, ApiError>(ApiError::NotFound),
            r is Ok ==> exists|i: int|
                0 <= i < self@.len() && #[trigger] self@[i] == r.unwrap()@ && self@[i].id == id,
    {
        match self.find_by_id(id) {
            Some(i) => Ok(self.rows[i].clone_row()),
            None => Err(ApiError::NotFound),
        }
    }

    /// The products that are not soft deleted, in stored order.
    pub fn list_products(&self) -> (r: Vec<Product>)
        ensures
            product_views(r@) == spec_live_products(self@),
    {
        let mut r: Vec<Product> = Vec::new();
        let mut i: usize = 0;
        proof {
            assert(product_views(r@) =~= spec_live_products(self@.subrange(0, 0)));
        }
        while i < self.rows.len()
            invariant
                i <= self.rows@.len(),
                self@.len() == self.rows@.len(),
                product_views(r@) == spec_live_products(self@.subrange(0, i as int)),
            decreases self.rows@.len() - i,
        {
            proof {
                assert(self@.subrange(0, i + 1).drop_last() =~= self@.subrange(0, i as int));
                assert(self@.subrange(0, i + 1).last() == self@[i as int]);
            }
            if self.rows[i].deleted_at.is_none() {
                let ghost prev = r@;
                r.push(self.rows[i].clone_row());
                proof {
                    assert(product_views(r@) =~= product_views(prev) + seq![self@[i as int]]);
                }
            }
            i += 1;
        }
        proof {
            assert(self@.subrange(0, self@.len() as int) =~= self@);
        }
        r
    }

    /// Update name, description, price and stock of a product,
    /// stamping `updated_at`; an absent field keeps the stored value.
    /// An unknown id is not found and changes nothing.
    pub fn update_product(&mut self, id: u128, update: &UpdateProduct, now: u64) -> (r: Result<
        Product,
        ApiError,
    >)
        requires
            old(self).wf(),
        ensures
            final(self).wf(),
            r is Err ==> final(self)@ == old(self)@ && r == Err::<Product, ApiError>(
                ApiError::NotFound,
            ),
            !has_product_id(old(self)@, id) <==> r is Err,
            forall|i: int|
                0 <= i < old(self)@.len() && (#[trigger] old(self)@[i]).id == id ==> r is Ok && {
                    &&& final(self)@.len() == old(self)@.len()
                    &&& final(self)@[i] == r.unwrap()@
                    &&& final(self)@[i].id == id
                    &&& final(self)@[i].name == (if update.name is Some {
                        update.name.unwrap()@
                    } else {
                        old(self)@[i].name
                    })
                    &&& (match (final(self)@[i].description, update.description) {
                        (Some(a), Some(b)) => a == b@,
                        (a, None) => a == old(self)@[i].description,
                        _ => false,
                    })
                    &&& final(self)@[i].price == (if update.price is Some {
                        update.price.unwrap()
                    } else {
                        old(self)@[i].price
                    })
                    &&& final(self)@[i].stock_quantity == (if update.stock_quantity is Some {
                        update.stock_quantity.unwrap()
                    } else {
                        old(self)@[i].stock_quantity
                    })
                    &&& final(self)@[i].category_id == old(self)@[i].category_id
                    &&& final(self)@[i].created_at == old(self)@[i].created_at
                    &&& final(self)@[i].updated_at == Some(now)
                    &&& final(self)@[i].deleted_at == old(self)@[i].deleted_at
                    &&& final(self)@[i].images == old(self)@[i].images
                    &&& (forall|k: int|
                        0 <= k < final(self)@.len() && k != i ==> #[trigger] final(self)@[k] == old(self)@[k])
                },
    {
        let i = match self.find_by_id(id) {
            Some(i) => i,
            None => {
                return Err(ApiError::NotFound);
            },
        };
        let current = self.rows[i].clone_row();
        let row = Product {
            id: current.id,
            name: match &update.name {
                Some(n) => n.clone(),
                None => current.name,
            },
            description: match &update.description {
                Some(d) => Some(d.clone()),
                None => current.description,
            },
            price: match update.price {
                Some(p) => p,
                None => current.price,
            },
            stock_quantity: match update.stock_quantity {
                Some(s) => s,
                None => current.stock_quantity,
            },
            category_id: current.category_id,
            created_at: current.created_at,
            updated_at: Some(now),
            deleted_at: current.deleted_at,
            images: current.images,
        };
        let out = row.clone_row();
        self.rows[i] = row;
        proof {
            assert(final(self)@ =~= old(self)@.update(i as int, out@));
        }
        Ok(out)
    }

    /// Remove a product's row outright; an unknown id is not found
    /// and changes nothing.
    pub fn delete_product(&mut self, id: u128) -> (r: Result<(), ApiError>)
        requires
            old(self).wf(),
        ensures
            final(self).wf(),
            r is Err ==> final(self)@ == old(self)@ && r == Err::<(), ApiError>(ApiError::NotFound),
            !has_product_id(old(self)@, id) <==> r is Err,
            forall|i: int|
                0 <= i < old(self)@.len() && (#[trigger] old(self)@[i]).id == id ==> r is Ok
                    && final(self)@ == old(self)@.remove(i),
    {
        match self.find_by_id(id) {
            Some(i) => {
                self.rows.remove(i);
                proof {
                    assert(final(self)@ =~= old(self)@.remove(i as int));
                }
                Ok(())
            },
            None => Err(ApiError::NotFound),
        }
    }

    /// Mark a product deleted at `now`, whether or not it already
    /// was; an unknown id is not found and changes nothing.
    pub fn soft_delete_product(&mut self, id: u128, now: u64) -> (r: Result<(), ApiError>)
        requires
            old(self).wf(),
        ensures
            final(self).wf(),
            r is Err ==> final(self)@ == old(self)@ && r == Err::<(), ApiError>(ApiError::NotFound),
            !has_product_id(old(self)@, id) <==> r is Err,
            forall|i: int|
                0 <= i < old(self)@.len() && (#[trigger] old(self)@[i]).id == id ==> r is Ok
                    && final(self)@ == old(self)@.update(
                    i,
                    ProductView {
                        deleted_at: Some(now),
                        ..old(self)@[i]
                    },
                ),
    {
        match self.find_by_id(id) {
            Some(i) => {
                let current = self.rows[i].clone_row();
                let row = Product {
                    id: current.id,
                    name: current.name,
                    description: current.description,
                    price: current.price,
                    stock_quantity: current.stock_quantity,
                    category_id: current.category_id,
                    created_at: current.created_at,
                    updated_at: current.updated_at,
                    deleted_at: Some(now),
                    images: current.images,
                };
                self.rows[i] = row;
                proof {
                    assert(final(self)@ =~= old(self)@.update(
                        i as int,
                        ProductView { deleted_at: Some(now), ..old(self)@[i as int] },
                    ));
                }
                Ok(())
            },
            None => Err(ApiError::NotFound),
        }
    }

    /// Append an image URL to a product's list; an unknown id is not
    /// found.
    pub fn add_product_image(&mut self, id: u128, image_url: &String) -> (r: Result<(), ApiError>)
        requires
            old(self).wf(),
        ensures
            final(self).wf(),
            r is Err ==> final(self)@ == old(self)@ && r == Err::<(), ApiError>(ApiError::NotFound),
            !has_product_id(old(self)@, id) <==> r is Err,
            forall|i: int|
                0 <= i < old(self)@.len() && (#[trigger] old(self)@[i]).id == id ==> r is Ok
                    && final(self)@ == old(self)@.update(
                    i,
                    ProductView {
                        images: old(self)@[i].images + seq![image_url@],
                        ..old(self)@[i]
                    },
                ),
    {
        let i = match self.find_by_id(id) {
            Some(i) => i,
            None => {
                return Err(ApiError::NotFound);
            },
        };
        let mut current = self.rows[i].clone_row();
        current.images.push(image_url.clone());
        proof {
            assert(current@ == ProductView {
                images: old(self)@[i as int].images + seq![image_url@],
                ..old(self)@[i as int]
            }) by {
                assert(current.images.deep_view() =~= old(self)@[i as int].images + seq![
                    image_url@,
                ]);
            }
        }
        self.rows[i] = current;
        proof {
            assert(final(self)@ =~= old(self)@.update(
                i as int,
                ProductView {
                    images: old(self)@[i as int].images + seq![image_url@],
                    ..old(self)@[i as int]
                },
            ));
        }
        Ok(())
    }

    /// Remove every occurrence of an image URL from a product's list
    /// and hand the remaining list back; an unknown id is not found.
    pub fn remove_product_image(&mut self, id: u128, image_url: &String) -> (r: Result<
        Vec<String>,
        ApiError,
    >)
        requires
            old(self).wf(),
        ensures
            final(self).wf(),
            r is Err ==> final(self)@ == old(self)@ && r == Err::<Vec<String>, ApiError>(
                ApiError::NotFound,
            ),
            !has_product_id(old(self)@, id) <==> r is Err,
            forall|i: int|
                0 <= i < old(self)@.len() && (#[trigger] old(self)@[i]).id == id ==> r is Ok && {
                    &&& r.unwrap().deep_view() == spec_remove_url(old(self)@[i].images, image_url@)
                    &&& final(self)@ == old(self)@.update(
                        i,
                        ProductView {
                            images: spec_remove_url(old(self)@[i].images, image_url@),
                            ..old(self)@[i]
                        },
                    )
                },
    {
        let i = match self.find_by_id(id) {
            Some(i) => i,
            None => {
                return Err(ApiError::NotFound);
            },
        };
        let mut kept: Vec<String> = Vec::new();
        let mut k: usize = 0;
        let ghost imgs = self.rows@[i as int].images.deep_view();
        proof {
            assert(imgs.subrange(0, 0) =~= Seq::<Seq<char>>::empty());
            assert(kept.deep_view() =~= spec_remove_url(imgs.subrange(0, 0), image_url@));
        }
        while k < self.rows[i].images.len()
            invariant
                i < self.rows@.len(),
                imgs == self.rows@[i as int].images.deep_view(),
                k <= imgs.len(),
                imgs.len() == self.rows@[i as int].images@.len(),
                kept.deep_view() == spec_remove_url(imgs.subrange(0, k as int), image_url@),
            decreases imgs.len() - k,
        {
            proof {
                assert(imgs.subrange(0, k + 1).drop_last() =~= imgs.subrange(0, k as int));
                assert(imgs.subrange(0, k + 1).last() == imgs[k as int]);
            }
            if !(self.rows[i].images[k] == *image_url) {
                let ghost prev = kept.deep_view();
                kept.push(self.rows[i].images[k].clone());
                proof {
                    assert(kept.deep_view() =~= prev + seq![imgs[k as int]]);
                }
            }
            k += 1;
        }
        proof {
            assert(imgs.subrange(0, imgs.len() as int) =~= imgs);
        }
        let out = {
            let mut out: Vec<String> = Vec::new();
            let mut m: usize = 0;
            while m < kept.len()
                invariant
                    m <= kept@.len(),
                    out@ == kept@.subrange(0, m as int),
                decreases kept@.len() - m,
            {
                out.push(kept[m].clone());
                proof {
                    assert(out@ =~= kept@.subrange(0, m + 1));
                }
                m += 1;
            }
            proof {
                assert(out@ =~= kept@);
                assert(out.deep_view() =~= kept.deep_view());
            }
            out
        };
        let mut current = self.rows[i].clone_row();
        current.images = kept;
        proof {
            assert(current@ == ProductView {
                images: spec_remove_url(old(self)@[i as int].images, image_url@),
                ..old(self)@[i as int]
            });
        }
        self.rows[i] = current;
        proof {
            assert(final(self)@ =~= old(self)@.update(
                i as int,
                ProductView {
                    images: spec_remove_url(old(self)@[i as int].images, image_url@),
                    ..old(self)@[i as int]
                },
            ));
        }
        Ok(out)
    }

    /// The filtered, paginated search: live rows passing every given
    /// filter, in stored order, windowed to the requested page.
    pub fn search_products(&self, params: &ProductQueryParams) -> (r: Vec<Product>)
        ensures
            product_views(r@) == spec_search_products(self@, *params),
    {
        let mut filtered: Vec<Product> = Vec::new();
        let mut i: usize = 0;
        proof {
            assert(product_views(filtered@) =~= spec_filtered_products(
                self@.subrange(0, 0),
                *params,
            ));
        }
        while i < self.rows.len()
            invariant
                i <= self.rows@.len(),
                self@.len() == self.rows@.len(),
                product_views(filtered@) == spec_filtered_products(
                    self@.subrange(0, i as int),
                    *params,
                ),
            decreases self.rows@.len() - i,
        {
            proof {
                assert(self@.subrange(0, i + 1).drop_last() =~= self@.subrange(0, i as int));
                assert(self@.subrange(0, i + 1).last() == self@[i as int]);
            }
            if matches_product(&self.rows[i], params) {
                let ghost prev = filtered@;
                filtered.push(self.rows[i].clone_row());
                proof {
                    assert(product_views(filtered@) =~= product_views(prev) + seq![self@[i as int]]);
                }
            }
            i += 1;
        }
        proof {
            assert(self@.subrange(0, self@.len() as int) =~= self@);
        }
        let ghost full = spec_filtered_products(self@, *params);
        let page = effective_page(params.page);
        let limit = effective_limit(params.limit);
        proof {
            assert((page as int - 1) * (limit as int) <= 0xFFFF_FFFE * 0xFFFF_FFFF)
                by (nonlinear_arith)
                requires
                    1 <= page <= 0xFFFF_FFFFu32,
                    limit <= 0xFFFF_FFFFu32,
            ;
        }
        let offset_w = (page as u64 - 1) * (limit as u64);
        let mut out: Vec<Product> = Vec::new();
        if offset_w >= filtered.len() as u64 {
            proof {
                assert(product_views(out@) =~= spec_page_window(full, params.page, params.limit));
            }
            return out;
        }
        let offset = offset_w as usize;
        let end = if (limit as u64) >= filtered.len() as u64 - (offset as u64) {
            filtered.len()
        } else {
            offset + (limit as usize)
        };
        let mut k: usize = offset;
        proof {
            assert(product_views(out@) =~= full.subrange(offset as int, offset as int));
        }
        while k < end
            invariant
                offset <= k <= end <= filtered@.len(),
                full == product_views(filtered@),
                product_views(out@) == full.subrange(offset as int, k as int),
            decreases end - k,
        {
            let ghost prev = out@;
            out.push(filtered[k].clone_row());
            proof {
                assert(product_views(out@) =~= product_views(prev) + seq![full[k as int]]);
                assert(full.subrange(offset as int, k + 1) =~= full.subrange(
                    offset as int,
                    k as int,
                ) + seq![full[k as int]]);
            }
            k += 1;
        }
        proof {
            let off = spec_offset(params.page, params.limit);
            let lim = spec_limit(params.limit) as int;
            assert(off == offset);
            assert(end == if off + lim <= full.len() {
                off + lim
            } else {
                full.len() as int
            });
            assert(product_views(out@) == spec_page_window(full, params.page, params.limit));
        }
        out
    }
}

/// Every row of the filtered result set passes every filter — in
/// particular, none is soft deleted — and comes from the table.
pub proof fn lemma_filtered_members(rows: Seq<ProductView>, params: ProductQueryParams)
    ensures
        forall|k: int|
            0 <= k < spec_filtered_products(rows, params).len() ==> spec_product_matches(
                #[trigger] spec_filtered_products(rows, params)[k],
                params,
            ) && exists|j: int|
                0 <= j < rows.len() && rows[j] == spec_filtered_products(rows, params)[k],
    decreases rows.len(),
{
    if rows.len() > 0 {
        lemma_filtered_members(rows.drop_last(), params);
        let rest = spec_filtered_products(rows.drop_last(), params);
        assert forall|k: int| 0 <= k < rest.len() implies spec_product_matches(
            #[trigger] rest[k],
            params,
        ) && exists|j: int| 0 <= j < rows.len() && rows[j] == rest[k] by {
            let j0 = choose|j: int| 0 <= j < rows.drop_last().len() && rows.drop_last()[j] == rest[k];
            assert(rows[j0] == rest[k]);
        }
    }
}

/// A soft-deleted product never appears in a search result, while its
/// row is still reachable by id.
pub proof fn lemma_soft_deleted_product_hidden_but_kept(
    rows: Seq<ProductView>,
    params: ProductQueryParams,
    i: int,
)
    requires
        0 <= i < rows.len(),
        rows[i].deleted_at is Some,
    ensures
        forall|k: int|
            0 <= k < spec_search_products(rows, params).len() ==> (#[trigger] spec_search_products(
                rows,
                params,
            )[k]) != rows[i],
        has_product_id(rows, rows[i].id),
{
    lemma_filtered_members(rows, params);
    let filtered = spec_filtered_products(rows, params);
    assert forall|k: int| 0 <= k < spec_search_products(rows, params).len() implies (
    #[trigger] spec_search_products(rows, params)[k]) != rows[i] by {
        let w = spec_search_products(rows, params);
        let off = spec_offset(params.page, params.limit);
        assert(w[k] == filtered[off + k]);
    }
}

/// The pagination window picks exactly the rows
/// offset .. offset + limit of the filtered result set: its k-th row
/// is row offset + k of that set, and it holds `limit` rows unless
/// the set ends sooner.
pub proof fn lemma_page_window_rows(s: Seq<ProductView>, page: u32, limit: u32)
    requires
        page >= 1,
        limit >= 1,
    ensures
        ({
            let off = (page - 1) * limit;
            let w = spec_page_window(s, Some(page), Some(limit));
            &&& w.len() == (if off >= s.len() {
                0
            } else if off + limit <= s.len() {
                limit as int
            } else {
                s.len() - off
            })
            &&& forall|k: int| 0 <= k < w.len() ==> w[k] == s[off + k]
        }),
{
}

} // verus!
