//! Editing logic of the ad-buy-engine dashboard: the state machines behind the
//! condition, funnel, sequence, matrix and campaign editors, with the text
//! parsing they rely on.

pub mod condition_view;
pub mod crud_campaign;
pub mod crud_funnels;
pub mod crud_offer;
pub mod crud_traffic_source;
pub mod funnel_laws;
pub mod lander_url_generator;
pub mod listicle_builder;
pub mod matrix_builder;
pub mod model;
pub mod outside;
pub mod routes;
pub mod selectors;
pub mod sequence_builders;
pub mod seqs;
pub mod text;
