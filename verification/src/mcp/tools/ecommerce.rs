use vstd::prelude::*;

verus! {

/// The arguments of the `shopify_list_products` tool (list products from Shopify store).
#[derive(Debug)]
pub struct ShopifyListProductsRequest {
    pub limit: Option<u32>,
    pub collection_id: Option<String>,
}

/// The arguments of the `shopify_get_product` tool (get a Shopify product by ID).
#[derive(Debug)]
pub struct ShopifyGetProductRequest {
    pub product_id: String,
}

/// The arguments of the `shopify_create_product` tool (create a new product in Shopify).
#[derive(Debug)]
pub struct ShopifyCreateProductRequest {
    pub title: String,
    pub body_html: Option<String>,
    pub vendor: Option<String>,
    pub product_type: Option<String>,
    pub tags: Option<String>,
}

/// The arguments of the `shopify_list_orders` tool (list orders from Shopify store).
#[derive(Debug)]
pub struct ShopifyListOrdersRequest {
    pub limit: Option<u32>,
    pub status: Option<String>,
}

/// The arguments of the `shopify_get_order` tool (get a Shopify order by ID).
#[derive(Debug)]
pub struct ShopifyGetOrderRequest {
    pub order_id: String,
}

/// The arguments of the `shopify_list_customers` tool (list customers from Shopify store).
#[derive(Debug)]
pub struct ShopifyListCustomersRequest {
    pub limit: Option<u32>,
}

/// The arguments of the `woocommerce_list_products` tool (list products from WooCommerce store).
#[derive(Debug)]
pub struct WooCommerceListProductsRequest {
    pub per_page: Option<u32>,
    pub category: Option<String>,
}

/// The arguments of the `woocommerce_get_product` tool (get a WooCommerce product by ID).
#[derive(Debug)]
pub struct WooCommerceGetProductRequest {
    pub product_id: i64,
}

/// The arguments of the `woocommerce_create_product` tool (create a new product in WooCommerce).
#[derive(Debug)]
pub struct WooCommerceCreateProductRequest {
    pub name: String,
    pub regular_price: Option<String>,
    pub description: Option<String>,
    pub short_description: Option<String>,
    pub sku: Option<String>,
}

/// The arguments of the `woocommerce_list_orders` tool (list orders from WooCommerce store).
#[derive(Debug)]
pub struct WooCommerceListOrdersRequest {
    pub per_page: Option<u32>,
    pub status: Option<String>,
}

/// The arguments of the `woocommerce_get_order` tool (get a WooCommerce order by ID).
#[derive(Debug)]
pub struct WooCommerceGetOrderRequest {
    pub order_id: i64,
}

} // verus!
