pub mod concentratedliquidity;
pub mod poolmanager;
