//! Kubernation's verified core: the decision logic behind the strategy-map
//! client for a Kubernetes cluster — configuration, state-file naming, the
//! advisor and charter line builders, the chaos-drill console, the menu bar
//! and the screen stack — each stated over plain values and proved.

pub mod config;
pub mod text;
pub mod order;
pub mod paths;
pub mod layout;
pub mod charter;
pub mod advisor;
pub mod reports;
pub mod rightsizing;
pub mod cost;
pub mod chaos;
pub mod menu;
pub mod screens;
pub mod ui;
pub mod city;
pub mod region;
pub mod logs;
pub mod pages;
pub mod netloop;
pub mod perms;
pub mod chrome;
pub mod legend;
pub mod almanac;
pub mod isles;
pub mod frame;
pub mod scene;
