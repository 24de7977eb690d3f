//! The fluent builder that accumulates a configuration around a
//! not-yet-serving application and finally produces a handler.

use vstd::prelude::*;
use crate::config::{BasePathBehaviour, Config, ResponseType};
use crate::handler::{LazyClient, RocketHandler};
use crate::strutil::{lower_of, lowercase};

verus! {

/// A builder to create and configure a [`RocketHandler`].
pub struct RocketHandlerBuilder<A> {
    rocket: A,
    config: Config,
}

impl<A> RocketHandlerBuilder<A> {
    /// The configuration accumulated so far.
    pub closed spec fn spec_config(&self) -> Config {
        self.config
    }

    /// The application the builder wraps.
    pub closed spec fn spec_rocket(&self) -> A {
        self.rocket
    }

    /// Creates a new builder around an application, with the default
    /// configuration: text encoding, no overrides, remount-and-include.
    pub fn new(rocket: A) -> (b: RocketHandlerBuilder<A>)
        ensures
            b.spec_rocket() == rocket,
            b.spec_config().default_response_type == ResponseType::Text,
            b.spec_config().overrides() == Map::<Seq<char>, ResponseType>::empty(),
            b.spec_config().base_path_behaviour == BasePathBehaviour::RemountAndInclude,
    {
        RocketHandlerBuilder { rocket, config: Config::new() }
    }

    /// Turns the builder into a handler whose client is not yet created;
    /// performs no work and cannot fail.
    pub fn into_handler<C>(self) -> (h: RocketHandler<A, C>)
        ensures
            h.spec_config() == self.spec_config(),
            h.spec_client() == LazyClient::<A, C>::Uninitialized(self.spec_rocket()),
    {
        RocketHandler::new_uninitialized(self.rocket, self.config)
    }

    /// Gets the default encoding mode, used for any response whose
    /// content type has no override.
    pub fn get_default_response_type(&self) -> (r: ResponseType)
        ensures
            r == self.spec_config().default_response_type,
    {
        self.config.default_response_type
    }

    /// Sets the default encoding mode, used for any response whose
    /// content type has no override.
    pub fn default_response_type(self, response_type: ResponseType) -> (b: RocketHandlerBuilder<A>)
        ensures
            b.spec_rocket() == self.spec_rocket(),
            b.spec_config().default_response_type == response_type,
            b.spec_config().overrides() == self.spec_config().overrides(),
            b.spec_config().base_path_behaviour == self.spec_config().base_path_behaviour,
    {
        let mut b = self;
        b.config.set_default(response_type);
        b
    }

    /// Gets the encoding mode for responses with the given content type;
    /// content types are treated case-insensitively.
    pub fn get_response_type(&self, content_type: &str) -> (r: ResponseType)
        ensures
            r == self.spec_config().spec_mode_for(lower_of(content_type@)),
    {
        let key = lowercase(content_type);
        self.config.mode_for_key(&key)
    }

    /// Sets the encoding mode for responses with the given content type;
    /// content types are treated case-insensitively, and a later setting
    /// for the same content type wins.
    pub fn response_type(self, content_type: &str, response_type: ResponseType) -> (b:
        RocketHandlerBuilder<A>)
        ensures
            b.spec_rocket() == self.spec_rocket(),
            b.spec_config().default_response_type == self.spec_config().default_response_type,
            b.spec_config().overrides() == self.spec_config().overrides().insert(
                lower_of(content_type@),
                response_type,
            ),
            b.spec_config().base_path_behaviour == self.spec_config().base_path_behaviour,
    {
        let key = lowercase(content_type);
        let mut b = self;
        b.config.insert_override(key, response_type);
        b
    }

    /// Sets how the gateway's base path is reconciled with the
    /// application's own route mounting.
    pub fn base_path_behaviour(self, setting: BasePathBehaviour) -> (b: RocketHandlerBuilder<A>)
        ensures
            b.spec_rocket() == self.spec_rocket(),
            b.spec_config().default_response_type == self.spec_config().default_response_type,
            b.spec_config().overrides() == self.spec_config().overrides(),
            b.spec_config().base_path_behaviour == setting,
    {
        let mut b = self;
        b.config.set_behaviour(setting);
        b
    }
}

} // verus!
