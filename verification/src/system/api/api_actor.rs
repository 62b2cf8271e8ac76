//! The ApiService unit: holds the configuration the HTTP control surface is
//! started with. Binding the listener and serving requests is the host's
//! work; the handlers' decisions stand in `handlers`.
use vstd::prelude::*;

use crate::settings::{Api, Tapo};

verus! {

#[derive(Debug)]
pub struct ApiActor {
    pub config_api: Api,
    pub config_tapo: Tapo,
}

impl ApiActor {
    pub fn new(config_api: Api, config_tapo: Tapo) -> (a: Self)
        ensures
            a.config_api == config_api,
            a.config_tapo == config_tapo,
    {
        ApiActor { config_api, config_tapo }
    }
}

} // verus!
