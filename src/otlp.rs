pub mod attribute_decoder;
pub mod attribute_store;
pub mod data_point_store;
pub mod exemplar;
pub mod exp_histogram_data_points;
pub mod histogram_data_points;
pub mod metric;
pub mod num_data_points;
pub mod proto;
pub mod related_data;
pub mod summary_data_points;
