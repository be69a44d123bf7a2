//! The decision core of an agent endpoint: what it stores, what it admits, what
//! it authorises, and what it sends.
pub mod a2a_client;
pub mod address;
pub mod approve;
pub mod audit;
pub mod authority;
pub mod broker;
pub mod broker_channel;
pub mod clock;
pub mod config;
pub mod contract;
pub mod control;
pub mod control_dispatch;
pub mod coord;
pub mod coord_card;
pub mod coord_dispatch;
pub mod coord_egress;
pub mod coord_order;
pub mod coord_peers;
pub mod coord_requests;
pub mod coord_stage;
pub mod decision;
pub mod delivery;
pub mod endpoint;
pub mod export;
pub mod gate;
pub mod identity;
pub mod inert;
pub mod ingress;
pub mod introduce;
pub mod issue;
pub mod laws;
pub mod limits;
pub mod meta;
pub mod numerals;
pub mod operator;
pub mod outside;
pub mod pairing;
pub mod propose;
pub mod reactor;
pub mod receive_coord;
pub mod receive_http;
pub mod request;
pub mod store;
pub mod table;
pub mod text;
pub mod tls;
