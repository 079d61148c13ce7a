//! The cart service: add (an upsert), list, and remove, over the cart
//! table, scoped to one user.
//!
//! A cart holds at most one row per (user, product): adding a product
//! that is already in the cart increments that row's quantity and
//! refreshes its update timestamp instead of inserting a second row.

use vstd::prelude::*;

use crate::ids::new_uuid;
use crate::ApiError;

verus! {

/// A stored cart row.
#[derive(Clone, Copy, PartialEq, Eq, Structural, Debug)]
pub struct CartItem {
    pub id: u128,
    pub user_id: u128,
    pub product_id: u128,
    pub quantity: i32,
    pub created_at: Option<u64>,
    pub updated_at: Option<u64>,
}

/// Body of the cart add endpoint.
pub struct AddToCartRequest {
    pub product_id: u128,
    pub quantity: i32,
}

/// Whether a user already has a row for a product.
pub open spec fn has_cart_row(rows: Seq<CartItem>, user: u128, product: u128) -> bool {
    exists|i: int| 0 <= i < rows.len() && rows[i].user_id == user && rows[i].product_id == product
}

/// Whether some row carries this id.
pub open spec fn has_cart_item_id(rows: Seq<CartItem>, id: u128) -> bool {
    exists|i: int| 0 <= i < rows.len() && rows[i].id == id
}

/// The index of a user's row for a product, where there is one.
pub open spec fn cart_index(rows: Seq<CartItem>, user: u128, product: u128) -> int {
    choose|i: int|
        0 <= i < rows.len() && rows[i].user_id == user && rows[i].product_id == product
}

/// At most one row per (user, product), and unique ids.
pub open spec fn cart_rows_wf(rows: Seq<CartItem>) -> bool {
    forall|i: int, j: int|
        0 <= i < j < rows.len() ==> rows[i].id != rows[j].id && !(rows[i].user_id
            == rows[j].user_id && rows[i].product_id == rows[j].product_id)
}

/// Whether the incremented quantity still fits its type.
pub open spec fn spec_cart_sum_ok(rows: Seq<CartItem>, user: u128, product: u128, qty: i32) -> bool {
    let i = cart_index(rows, user, product);
    i32::MIN <= rows[i].quantity + qty <= i32::MAX
}

/// The upsert: increment the existing row's quantity and refresh its
/// update timestamp, or append a fresh row.
pub open spec fn spec_cart_upsert(
    rows: Seq<CartItem>,
    user: u128,
    product: u128,
    qty: i32,
    now: u64,
    fresh_id: u128,
) -> Seq<CartItem> {
    if has_cart_row(rows, user, product) {
        let i = cart_index(rows, user, product);
        rows.update(
            i,
            CartItem {
                quantity: (rows[i].quantity + qty) as i32,
                updated_at: Some(now),
                ..rows[i]
            },
        )
    } else {
        rows.push(
            CartItem {
                id: fresh_id,
                user_id: user,
                product_id: product,
                quantity: qty,
                created_at: Some(now),
                updated_at: Some(now),
            },
        )
    }
}

/// A user's rows, in stored order.
pub open spec fn spec_user_cart(rows: Seq<CartItem>, user: u128) -> Seq<CartItem>
    decreases rows.len(),
{
    if rows.len() == 0 {
        Seq::empty()
    } else {
        let rest = spec_user_cart(rows.drop_last(), user);
        if rows.last().user_id == user {
            rest + seq![rows.last()]
        } else {
            rest
        }
    }
}

/// The cart relation.
pub struct CartTable {
    rows: Vec<CartItem>,
}

impl View for CartTable {
    type V = Seq<CartItem>;

    closed spec fn view(&self) -> Seq<CartItem> {
        self.rows@
    }
}

impl CartTable {
    /// At most one row per (user, product), unique ids.
    pub open spec fn wf(self) -> bool {
        cart_rows_wf(self@)
    }

    /// An empty cart relation.
    pub fn new() -> (r: CartTable)
        ensures
            r@ == Seq::<CartItem>::empty(),
            r.wf(),
    {
        CartTable { rows: Vec::new() }
    }

    fn find_row(&self, user: u128, product: u128) -> (r: Option<usize>)
        ensures
            match r {
                Some(i) => i < self@.len() && self@[i as int].user_id == user
                    && self@[i as int].product_id == product,
                None => !has_cart_row(self@, user, product),
            },
    {
        let mut idx: usize = 0;
        while idx < self.rows.len()
            invariant
                idx <= self.rows@.len(),
                forall|k: int|
                    0 <= k < idx ==> !((#[trigger] self.rows@[k]).user_id == user
                        && self.rows@[k].product_id == product),
            decreases self.rows@.len() - idx,
        {
            if self.rows[idx].user_id == user && self.rows[idx].product_id == product {
                return Some(idx);
            }
            idx += 1;
        }
        None
    }

    fn find_by_id(&self, id: u128) -> (r: Option<usize>)
        ensures
            match r {
                Some(i) => i < self@.len() && self@[i as int].id == id,
                None => !has_cart_item_id(self@, id),
            },
    {
        let mut idx: usize = 0;
        while idx < self.rows.len()
            invariant
                idx <= self.rows@.len(),
                forall|k: int| 0 <= k < idx ==> self.rows@[k].id != id,
            decreases self.rows@.len() - idx,
        {
            if self.rows[idx].id == id {
                return Some(idx);
            }
            idx += 1;
        }
        None
    }

    /// The upsert under a given fresh id: increment the user's
    /// existing row for the product, or append a new one. An
    /// incremented quantity that overflows, or a colliding fresh id,
    /// is an internal fault and changes nothing.
    pub fn add_to_cart_with_id(
        &mut self,
        user_id: u128,
        req: &AddToCartRequest,
        now: u64,
        fresh_id: u128,
    ) -> (r: Result<CartItem, ApiError>)
        requires
            old(self).wf(),
        ensures
            final(self).wf(),
            r is Err ==> final(self)@ == old(self)@ && r == Err::<CartItem, ApiError>(
                ApiError::Internal,
            ),
            has_cart_row(old(self)@, user_id, req.product_id) ==> {
                &&& (spec_cart_sum_ok(old(self)@, user_id, req.product_id, req.quantity) ==> r is Ok
                    && final(self)@ == spec_cart_upsert(
                    old(self)@,
                    user_id,
                    req.product_id,
                    req.quantity,
                    now,
                    fresh_id,
                ) && r.unwrap() == final(self)@[cart_index(old(self)@, user_id, req.product_id)])
                &&& (!spec_cart_sum_ok(old(self)@, user_id, req.product_id, req.quantity) ==> r
                    is Err)
            },
            !has_cart_row(old(self)@, user_id, req.product_id) ==> {
                &&& (!has_cart_item_id(old(self)@, fresh_id) ==> r is Ok && final(self)@
                    == spec_cart_upsert(
                    old(self)@,
                    user_id,
                    req.product_id,
                    req.quantity,
                    now,
                    fresh_id,
                ) && r.unwrap() == final(self)@.last())
                &&& (has_cart_item_id(old(self)@, fresh_id) ==> r is Err)
            },
    {
        match self.find_row(user_id, req.product_id) {
            Some(i) => {
                let q = match self.rows[i].quantity.checked_add(req.quantity) {
                    Some(q) => q,
                    None => {
                        return Err(ApiError::Internal);
                    },
                };
                let mut row = self.rows[i];
                row.quantity = q;
                row.updated_at = Some(now);
                self.rows[i] = row;
                proof {
                    let ci = cart_index(old(self)@, user_id, req.product_id);
                    assert(0 <= ci < old(self)@.len() && old(self)@[ci].user_id == user_id && old(self)@[ci].product_id == req.product_id);
                    assert(ci == i);
                }
                Ok(row)
            },
            None => {
                if self.find_by_id(fresh_id).is_some() {
                    return Err(ApiError::Internal);
                }
                let row = CartItem {
                    id: fresh_id,
                    user_id,
                    product_id: req.product_id,
                    quantity: req.quantity,
                    created_at: Some(now),
                    updated_at: Some(now),
                };
                self.rows.push(row);
                Ok(row)
            },
        }
    }

    /// The upsert under a freshly drawn random id.
    pub fn add_to_cart(&mut self, user_id: u128, req: &AddToCartRequest, now: u64) -> (r: Result<
        CartItem,
        ApiError,
    >)
        requires
            old(self).wf(),
        ensures
            final(self).wf(),
            r is Err ==> final(self)@ == old(self)@ && r == Err::<CartItem, ApiError>(
                ApiError::Internal,
            ),
            has_cart_row(old(self)@, user_id, req.product_id) && spec_cart_sum_ok(
                old(self)@,
                user_id,
                req.product_id,
                req.quantity,
            ) ==> r is Ok && exists|fid: u128|
                final(self)@ == #[trigger] spec_cart_upsert(
                    old(self)@,
                    user_id,
                    req.product_id,
                    req.quantity,
                    now,
                    fid,
                ),
            r is Ok ==> exists|fid: u128|
                final(self)@ == #[trigger] spec_cart_upsert(
                    old(self)@,
                    user_id,
                    req.product_id,
                    req.quantity,
                    now,
                    fid,
                ),
            r is Ok && has_cart_row(old(self)@, user_id, req.product_id) ==> r.unwrap() == final(self)@[cart_index(old(self)@, user_id, req.product_id)],
            r is Ok && !has_cart_row(old(self)@, user_id, req.product_id) ==> r.unwrap() == final(self)@.last(),
    {
        let fresh_id = new_uuid();
        let r = self.add_to_cart_with_id(user_id, req, now, fresh_id);
        proof {
            if r is Ok {
                assert(final(self)@ == spec_cart_upsert(
                    old(self)@,
                    user_id,
                    req.product_id,
                    req.quantity,
                    now,
                    fresh_id,
                ));
            }
        }
        r
    }

    /// A user's cart rows, in stored order.
    pub fn get_user_cart(&self, user_id: u128) -> (r: Vec<CartItem>)
        ensures
            r@ == spec_user_cart(self@, user_id),
    {
        let mut r: Vec<CartItem> = Vec::new();
        let mut i: usize = 0;
        proof {
            assert(r@ =~= spec_user_cart(self@.subrange(0, 0), user_id));
        }
        while i < self.rows.len()
            invariant
                i <= self.rows@.len(),
                r@ == spec_user_cart(self@.subrange(0, i as int), user_id),
            decreases self.rows@.len() - i,
        {
            proof {
                assert(self@.subrange(0, i + 1).drop_last() =~= self@.subrange(0, i as int));
                assert(self@.subrange(0, i + 1).last() == self@[i as int]);
            }
            if self.rows[i].user_id == user_id {
                r.push(self.rows[i]);
            }
            i += 1;
        }
        proof {
            assert(self@.subrange(0, self@.len() as int) =~= self@);
        }
        r
    }

    /// Remove a user's row for a product and report how many rows
    /// went: one where the row was there, none otherwise.
    pub fn remove_from_cart(&mut self, user_id: u128, product_id: u128) -> (r: u64)
        requires
            old(self).wf(),
        ensures
            final(self).wf(),
            !has_cart_row(old(self)@, user_id, product_id) ==> r == 0 && final(self)@ == old(self)@,
            forall|i: int|
                0 <= i < old(self)@.len() && (#[trigger] old(self)@[i]).user_id == user_id && old(self)@[i].product_id == product_id ==> r == 1 && final(self)@ == old(self)@.remove(i),
    {
        match self.find_row(user_id, product_id) {
            Some(i) => {
                self.rows.remove(i);
                1
            },
            None => 0,
        }
    }
}

/// The upsert accumulates: adding a product twice for the same user
/// leaves one row for it, whose quantity is the sum of the two
/// requested quantities, and every other row untouched.
pub proof fn lemma_cart_upsert_accumulates(
    rows: Seq<CartItem>,
    user: u128,
    product: u128,
    q1: i32,
    q2: i32,
    t1: u64,
    t2: u64,
    id1: u128,
    id2: u128,
)
    requires
        !has_cart_row(rows, user, product),
        i32::MIN <= q1 + q2 <= i32::MAX,
    ensures
        ({
            let s2 = spec_cart_upsert(
                spec_cart_upsert(rows, user, product, q1, t1, id1),
                user,
                product,
                q2,
                t2,
                id2,
            );
            &&& s2.len() == rows.len() + 1
            &&& s2[rows.len() as int].user_id == user
            &&& s2[rows.len() as int].product_id == product
            &&& s2[rows.len() as int].quantity == q1 + q2
            &&& s2[rows.len() as int].updated_at == Some(t2)
            &&& (forall|j: int| 0 <= j < rows.len() ==> s2[j] == rows[j])
            &&& (forall|j: int|
                0 <= j < s2.len() && (#[trigger] s2[j]).user_id == user && s2[j].product_id
                    == product ==> j == rows.len())
        }),
{
    let s1 = spec_cart_upsert(rows, user, product, q1, t1, id1);
    assert(s1 == rows.push(
        CartItem {
            id: id1,
            user_id: user,
            product_id: product,
            quantity: q1,
            created_at: Some(t1),
            updated_at: Some(t1),
        },
    ));
    assert(s1[rows.len() as int].user_id == user && s1[rows.len() as int].product_id == product);
    assert(has_cart_row(s1, user, product));
    let ci = cart_index(s1, user, product);
    assert(0 <= ci < s1.len() && s1[ci].user_id == user && s1[ci].product_id == product);
    assert(ci == rows.len()) by {
        if ci < rows.len() {
            assert(rows[ci] == s1[ci]);
        }
    }
}

} // verus!
