//! The catalog: categories and products, soft deletion, the search
//! filters, pagination, and the SQL the search maps to.

use easy_buy::category::{CategoryFilter, CategoryTable, CreateCategory, UpdateCategoryRequest};
use easy_buy::product::{CreateProduct, ProductQueryParams, ProductTable, UpdateProduct};
use easy_buy::query::{build_search_sql, SqlParam};
use easy_buy::ApiError;

fn no_filters() -> ProductQueryParams {
    ProductQueryParams {
        query: None,
        category_id: None,
        min_price: None,
        max_price: None,
        in_stock: None,
        page: None,
        limit: None,
    }
}

fn add_product(table: &mut ProductTable, name: &str, price: u64, stock: i32, now: u64) -> u128 {
    let req = CreateProduct {
        name: name.to_string(),
        description: None,
        price,
        stock_quantity: stock,
        category_id: None,
    };
    table.create_product(&req, now).unwrap().id
}

#[test]
fn category_create_and_list_newest_first() {
    let mut table = CategoryTable::new();
    let a = table
        .create_category(
            &CreateCategory { name: "Books".to_string(), description: None },
            100,
        )
        .unwrap();
    let b = table
        .create_category(
            &CreateCategory {
                name: "Games".to_string(),
                description: Some("fun".to_string()),
            },
            200,
        )
        .unwrap();
    let listed = table.list_categories();
    assert_eq!(listed.len(), 2);
    assert_eq!(listed[0].id, b.id);
    assert_eq!(listed[1].id, a.id);
    assert_eq!(listed[0].created_at, Some(200));
}

#[test]
fn soft_deleted_category_hidden_from_list_but_readable() {
    let mut table = CategoryTable::new();
    let a = table
        .create_category(&CreateCategory { name: "Books".to_string(), description: None }, 100)
        .unwrap();
    let b = table
        .create_category(&CreateCategory { name: "Games".to_string(), description: None }, 200)
        .unwrap();
    table.soft_delete_category(a.id, 300).unwrap();

    let listed = table.list_categories();
    assert_eq!(listed.len(), 1);
    assert_eq!(listed[0].id, b.id);

    // Still retrievable by direct id lookup.
    let fetched = table.get_category_by_id(a.id).unwrap();
    assert_eq!(fetched.name, "Books");
    assert_eq!(fetched.deleted_at, Some(300));

    // A second soft delete finds nothing to mark.
    assert_eq!(table.soft_delete_category(a.id, 400).unwrap_err(), ApiError::NotFound);
    // Neither does an update of a soft-deleted category.
    let upd = UpdateCategoryRequest { name: Some("X".to_string()), description: None };
    assert_eq!(table.update_category(a.id, &upd, 400).unwrap_err(), ApiError::NotFound);
}

#[test]
fn category_update_and_hard_delete() {
    let mut table = CategoryTable::new();
    let a = table
        .create_category(&CreateCategory { name: "Books".to_string(), description: None }, 100)
        .unwrap();
    let upd = UpdateCategoryRequest { name: None, description: Some("printed".to_string()) };
    table.update_category(a.id, &upd, 150).unwrap();
    let fetched = table.get_category_by_id(a.id).unwrap();
    assert_eq!(fetched.name, "Books");
    assert_eq!(fetched.description.as_deref(), Some("printed"));
    assert_eq!(fetched.updated_at, Some(150));

    table.hard_delete_category(a.id).unwrap();
    assert_eq!(table.get_category_by_id(a.id).unwrap_err(), ApiError::NotFound);
    assert_eq!(table.hard_delete_category(a.id).unwrap_err(), ApiError::NotFound);
}

#[test]
fn category_filter_matches_name_case_insensitively() {
    let mut table = CategoryTable::new();
    table
        .create_category(&CreateCategory { name: "Board Games".to_string(), description: None }, 1)
        .unwrap();
    table
        .create_category(&CreateCategory { name: "Books".to_string(), description: None }, 2)
        .unwrap();
    let hits = table.filter_categories(&CategoryFilter { name: Some("gAmE".to_string()) });
    assert_eq!(hits.len(), 1);
    assert_eq!(hits[0].name, "Board Games");
    let all = table.filter_categories(&CategoryFilter { name: None });
    assert_eq!(all.len(), 2);
}

#[test]
fn soft_deleted_product_excluded_from_search_but_readable() {
    let mut table = ProductTable::new();
    let id1 = add_product(&mut table, "Mouse", 1000, 5, 1);
    let id2 = add_product(&mut table, "Keyboard", 2000, 5, 2);
    table.soft_delete_product(id1, 10).unwrap();

    let found = table.search_products(&no_filters());
    assert_eq!(found.len(), 1);
    assert_eq!(found[0].id, id2);
    assert_eq!(table.list_products().len(), 1);

    let fetched = table.get_product(id1).unwrap();
    assert_eq!(fetched.name, "Mouse");
    assert_eq!(fetched.deleted_at, Some(10));
}

#[test]
fn search_filters_compose() {
    let mut table = ProductTable::new();
    add_product(&mut table, "Cheap Mouse", 500, 5, 1);
    add_product(&mut table, "Fancy Mouse", 5000, 0, 2);
    add_product(&mut table, "Keyboard", 2000, 3, 3);

    let mut params = no_filters();
    params.query = Some("mouse".to_string());
    let hits = table.search_products(&params);
    assert_eq!(hits.len(), 2);

    params.in_stock = Some(true);
    let hits = table.search_products(&params);
    assert_eq!(hits.len(), 1);
    assert_eq!(hits[0].name, "Cheap Mouse");

    let mut params = no_filters();
    params.min_price = Some(1000);
    params.max_price = Some(2000);
    let hits = table.search_products(&params);
    assert_eq!(hits.len(), 1);
    assert_eq!(hits[0].name, "Keyboard");
}

#[test]
fn pagination_returns_the_second_window() {
    let mut table = ProductTable::new();
    for i in 0..25 {
        add_product(&mut table, &format!("item-{:02}", i), 100 + i as u64, 1, i as u64);
    }
    let mut params = no_filters();
    params.page = Some(2);
    params.limit = Some(10);
    let hits = table.search_products(&params);
    assert_eq!(hits.len(), 10);
    // Rows 11..20 of the stable creation order.
    assert_eq!(hits[0].name, "item-10");
    assert_eq!(hits[9].name, "item-19");

    params.page = Some(3);
    let hits = table.search_products(&params);
    assert_eq!(hits.len(), 5);
    assert_eq!(hits[0].name, "item-20");

    params.page = Some(4);
    assert_eq!(table.search_products(&params).len(), 0);

    // Page and limit of zero are clamped to one.
    params.page = Some(0);
    params.limit = Some(0);
    let hits = table.search_products(&params);
    assert_eq!(hits.len(), 1);
    assert_eq!(hits[0].name, "item-00");
}

#[test]
fn product_update_keeps_absent_fields() {
    let mut table = ProductTable::new();
    let id = add_product(&mut table, "Mouse", 1000, 5, 1);
    let upd = UpdateProduct {
        name: None,
        description: Some("wired".to_string()),
        price: Some(1200),
        stock_quantity: None,
    };
    let updated = table.update_product(id, &upd, 9).unwrap();
    assert_eq!(updated.name, "Mouse");
    assert_eq!(updated.description.as_deref(), Some("wired"));
    assert_eq!(updated.price, 1200);
    assert_eq!(updated.stock_quantity, 5);
    assert_eq!(updated.updated_at, Some(9));

    let missing = table.update_product(0xDEAD, &upd, 9);
    assert_eq!(missing.unwrap_err(), ApiError::NotFound);
}

#[test]
fn product_delete_and_image_list_ops() {
    let mut table = ProductTable::new();
    let id = add_product(&mut table, "Mouse", 1000, 5, 1);
    table.add_product_image(id, &"/uploads/a.jpg".to_string()).unwrap();
    table.add_product_image(id, &"/uploads/b.jpg".to_string()).unwrap();
    table.add_product_image(id, &"/uploads/a.jpg".to_string()).unwrap();

    // Removal takes out every occurrence of the URL.
    let left = table.remove_product_image(id, &"/uploads/a.jpg".to_string()).unwrap();
    assert_eq!(left, vec!["/uploads/b.jpg".to_string()]);

    table.delete_product(id).unwrap();
    assert_eq!(table.get_product(id).unwrap_err(), ApiError::NotFound);
    // A second delete finds nothing to remove.
    assert_eq!(table.delete_product(id).unwrap_err(), ApiError::NotFound);
    assert_eq!(table.soft_delete_product(id, 11).unwrap_err(), ApiError::NotFound);
}

#[test]
fn image_list_ops_on_unknown_product_are_not_found() {
    let mut table = ProductTable::new();
    let url = "/uploads/a.jpg".to_string();
    assert_eq!(table.add_product_image(1, &url).unwrap_err(), ApiError::NotFound);
    assert_eq!(table.remove_product_image(1, &url).unwrap_err(), ApiError::NotFound);
}

#[test]
fn search_sql_with_every_filter() {
    let params = ProductQueryParams {
        query: Some("mouse".to_string()),
        category_id: Some(7),
        min_price: Some(100),
        max_price: Some(900),
        in_stock: Some(true),
        page: Some(2),
        limit: Some(10),
    };
    let (sql, binds) = build_search_sql(&params);
    assert_eq!(
        sql,
        "SELECT * FROM products WHERE deleted_at IS NULL AND name ILIKE $1 \
         AND category_id = $2 AND price >= $3 AND price <= $4 \
         AND stock_quantity > 0 ORDER BY created_at LIMIT $5 OFFSET $6"
    );
    assert_eq!(binds.len(), 6);
    assert!(matches!(&binds[0], SqlParam::Text(p) if p == "%mouse%"));
    assert!(matches!(binds[1], SqlParam::Id(7)));
    assert!(matches!(binds[2], SqlParam::Price(100)));
    assert!(matches!(binds[3], SqlParam::Price(900)));
    assert!(matches!(binds[4], SqlParam::Int(10)));
    assert!(matches!(binds[5], SqlParam::Int(10)));
}

#[test]
fn search_sql_with_no_filters_uses_defaults() {
    let (sql, binds) = build_search_sql(&no_filters());
    assert_eq!(
        sql,
        "SELECT * FROM products WHERE deleted_at IS NULL ORDER BY created_at LIMIT $1 OFFSET $2"
    );
    assert_eq!(binds.len(), 2);
    assert!(matches!(binds[0], SqlParam::Int(10)));
    assert!(matches!(binds[1], SqlParam::Int(0)));
}
