//! The cart upsert, the image primary-flag invariant, and the input
//! validation of the authentication bodies.

use easy_buy::cart::{AddToCartRequest, CartTable};
use easy_buy::models::{valid_email, RegisterRequest};
use easy_buy::product_image::{CreateProductImage, ImageTable, UpdateProductImage};
use easy_buy::ApiError;

const USER: u128 = 11;
const PRODUCT: u128 = 77;

#[test]
fn cart_add_is_an_upsert_that_accumulates() {
    let mut cart = CartTable::new();
    cart.add_to_cart(USER, &AddToCartRequest { product_id: PRODUCT, quantity: 2 }, 100).unwrap();
    let item = cart
        .add_to_cart(USER, &AddToCartRequest { product_id: PRODUCT, quantity: 3 }, 200)
        .unwrap();
    assert_eq!(item.quantity, 5);
    assert_eq!(item.updated_at, Some(200));

    let rows = cart.get_user_cart(USER);
    assert_eq!(rows.len(), 1);
    assert_eq!(rows[0].quantity, 5);
    assert_eq!(rows[0].product_id, PRODUCT);
}

#[test]
fn carts_are_scoped_to_their_user() {
    let mut cart = CartTable::new();
    cart.add_to_cart(USER, &AddToCartRequest { product_id: PRODUCT, quantity: 1 }, 1).unwrap();
    cart.add_to_cart(22, &AddToCartRequest { product_id: PRODUCT, quantity: 4 }, 2).unwrap();
    assert_eq!(cart.get_user_cart(USER).len(), 1);
    assert_eq!(cart.get_user_cart(22)[0].quantity, 4);
    assert_eq!(cart.get_user_cart(33).len(), 0);
}

#[test]
fn cart_remove_reports_how_many_rows_went() {
    let mut cart = CartTable::new();
    cart.add_to_cart(USER, &AddToCartRequest { product_id: PRODUCT, quantity: 2 }, 1).unwrap();
    assert_eq!(cart.remove_from_cart(USER, PRODUCT), 1);
    assert_eq!(cart.remove_from_cart(USER, PRODUCT), 0);
    assert_eq!(cart.get_user_cart(USER).len(), 0);
}

#[test]
fn cart_quantity_overflow_is_an_internal_fault() {
    let mut cart = CartTable::new();
    cart.add_to_cart(USER, &AddToCartRequest { product_id: PRODUCT, quantity: i32::MAX }, 1)
        .unwrap();
    let r = cart.add_to_cart(USER, &AddToCartRequest { product_id: PRODUCT, quantity: 1 }, 2);
    assert_eq!(r.unwrap_err(), ApiError::Internal);
    // The row is untouched.
    assert_eq!(cart.get_user_cart(USER)[0].quantity, i32::MAX);
}

#[test]
fn setting_a_new_primary_leaves_exactly_one() {
    let mut images = ImageTable::new();
    let a = images
        .create_product_image(
            &CreateProductImage {
                product_id: PRODUCT,
                image_url: "/uploads/a.jpg".to_string(),
                is_primary: Some(true),
            },
            1,
        )
        .unwrap();
    let b = images
        .create_product_image(
            &CreateProductImage {
                product_id: PRODUCT,
                image_url: "/uploads/b.jpg".to_string(),
                is_primary: None,
            },
            2,
        )
        .unwrap();
    assert!(a.is_primary);
    assert!(!b.is_primary);

    let updated = images
        .update_product_image(b.id, &UpdateProductImage { is_primary: Some(true) })
        .unwrap();
    assert!(updated.is_primary);

    let listed = images.get_product_images(PRODUCT);
    assert_eq!(listed.len(), 2);
    let primaries: Vec<_> = listed.iter().filter(|i| i.is_primary).collect();
    assert_eq!(primaries.len(), 1);
    assert_eq!(primaries[0].id, b.id);
    // The primary image comes first in the listing.
    assert_eq!(listed[0].id, b.id);
}

#[test]
fn uploading_a_primary_image_displaces_the_old_primary() {
    let mut images = ImageTable::new();
    let a = images
        .create_product_image(
            &CreateProductImage {
                product_id: PRODUCT,
                image_url: "/uploads/a.jpg".to_string(),
                is_primary: Some(true),
            },
            1,
        )
        .unwrap();
    let b = images
        .create_product_image(
            &CreateProductImage {
                product_id: PRODUCT,
                image_url: "/uploads/b.jpg".to_string(),
                is_primary: Some(true),
            },
            2,
        )
        .unwrap();
    let listed = images.get_product_images(PRODUCT);
    let primaries: Vec<_> = listed.iter().filter(|i| i.is_primary).collect();
    assert_eq!(primaries.len(), 1);
    assert_eq!(primaries[0].id, b.id);
    assert!(listed.iter().any(|i| i.id == a.id && !i.is_primary));
}

#[test]
fn primary_flags_are_scoped_to_their_product() {
    let mut images = ImageTable::new();
    images
        .create_product_image(
            &CreateProductImage {
                product_id: PRODUCT,
                image_url: "/uploads/a.jpg".to_string(),
                is_primary: Some(true),
            },
            1,
        )
        .unwrap();
    let other = images
        .create_product_image(
            &CreateProductImage {
                product_id: 88,
                image_url: "/uploads/c.jpg".to_string(),
                is_primary: Some(true),
            },
            2,
        )
        .unwrap();
    assert!(other.is_primary);
    assert_eq!(images.get_product_images(PRODUCT).len(), 1);
    assert!(images.get_product_images(PRODUCT)[0].is_primary);
}

#[test]
fn deleting_an_image_removes_its_row() {
    let mut images = ImageTable::new();
    let a = images
        .create_product_image(
            &CreateProductImage {
                product_id: PRODUCT,
                image_url: "/uploads/a.jpg".to_string(),
                is_primary: None,
            },
            1,
        )
        .unwrap();
    images.delete_product_image(a.id).unwrap();
    assert_eq!(images.get_product_images(PRODUCT).len(), 0);
    // A second delete finds nothing to remove.
    assert_eq!(images.delete_product_image(a.id).unwrap_err(), ApiError::NotFound);
}

#[test]
fn updating_an_unknown_image_is_not_found() {
    let mut images = ImageTable::new();
    let r = images.update_product_image(5, &UpdateProductImage { is_primary: Some(true) });
    assert_eq!(r.unwrap_err(), ApiError::NotFound);
}

#[test]
fn email_policy_exactly_one_at_sign_not_at_the_edges() {
    assert!(valid_email("a@x.com"));
    assert!(valid_email("first.last@example.org"));
    assert!(!valid_email("ax.com"));
    assert!(!valid_email("@x.com"));
    assert!(!valid_email("a@"));
    assert!(!valid_email("a@@x.com"));
    assert!(!valid_email(""));
    assert!(!valid_email("@"));
}

#[test]
fn register_body_validation() {
    let ok = RegisterRequest { email: "a@x.com".to_string(), password: "123456".to_string() };
    assert!(ok.validate().is_ok());
    let short = RegisterRequest { email: "a@x.com".to_string(), password: "12345".to_string() };
    assert_eq!(short.validate().unwrap_err(), ApiError::Validation);
    let bad_mail = RegisterRequest { email: "ax.com".to_string(), password: "123456".to_string() };
    assert_eq!(bad_mail.validate().unwrap_err(), ApiError::Validation);
}
