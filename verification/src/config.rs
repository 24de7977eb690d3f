//! Settings carried by the builder and the handler: the default response
//! encoding, per-content-type encoding overrides, and the base-path mode.

use vstd::prelude::*;
use crate::strutil::str_eq;

verus! {

/// Determines how to encode response content. The default is `Text`.
#[derive(PartialEq, Eq, Structural, Copy, Clone, Debug)]
pub enum ResponseType {
    /// Encodes response content as a UTF-8 string.
    Text,
    /// Encodes response content as raw bytes (sent base64-encoded on the wire).
    Binary,
}

/// Determines whether the gateway's base path is included in the URL
/// processed by the embedded application. The default is `RemountAndInclude`.
#[derive(PartialEq, Eq, Structural, Copy, Clone, Debug)]
pub enum BasePathBehaviour {
    /// Includes the base path in the URL. The first request received will be
    /// used to determine the base path, and all mounted routes will be cloned
    /// and re-mounted at the base path.
    RemountAndInclude,
    /// Includes the base path in the URL. The caller must ensure that the
    /// application's routes have been mounted at the expected base path.
    Include,
    /// Excludes the base path from the URL. The URL processed by the
    /// application may not match the full path of the original client.
    Exclude,
}

/// The settings owned by a handler: default encoding, per-content-type
/// encoding overrides (keys stored lower-cased), and the base-path mode.
pub struct Config {
    pub default_response_type: ResponseType,
    pub response_types: Vec<(String, ResponseType)>,
    pub base_path_behaviour: BasePathBehaviour,
}

impl Config {
    /// The override table as a map from (lower-cased) content type to mode.
    pub closed spec fn overrides(&self) -> Map<Seq<char>, ResponseType> {
        Self::overrides_of(self.response_types@)
    }

    /// The map induced by a list of entries, later entries winning.
    pub closed spec fn overrides_of(entries: Seq<(String, ResponseType)>) -> Map<
        Seq<char>,
        ResponseType,
    >
        decreases entries.len(),
    {
        if entries.len() == 0 {
            Map::empty()
        } else {
            Self::overrides_of(entries.drop_last()).insert(
                entries.last().0@,
                entries.last().1,
            )
        }
    }

    /// The encoding mode for a (lower-cased) content-type key: its override
    /// where one was set, the default otherwise.
    pub open spec fn spec_mode_for(self, key: Seq<char>) -> ResponseType {
        if self.overrides().contains_key(key) {
            self.overrides()[key]
        } else {
            self.default_response_type
        }
    }

    /// Looks an already lower-cased content-type key up in the overrides,
    /// the latest setting winning, falling back to the default mode.
    pub(crate) fn mode_for_key(&self, key: &String) -> (r: ResponseType)
        ensures
            r == self.spec_mode_for(key@),
    {
        let n = self.response_types.len();
        let mut i: usize = n;
        proof {
            assert(self.response_types@.take(n as int) =~= self.response_types@);
        }
        while i > 0
            invariant
                i <= n,
                n == self.response_types@.len(),
                Self::overrides_of(self.response_types@).contains_key(key@)
                    == Self::overrides_of(self.response_types@.take(i as int)).contains_key(key@),
                Self::overrides_of(self.response_types@).contains_key(key@)
                    ==> Self::overrides_of(self.response_types@)[key@] == Self::overrides_of(
                    self.response_types@.take(i as int),
                )[key@],
            decreases i,
        {
            proof {
                assert(self.response_types@.take(i as int).drop_last() =~= self.response_types@
                    .take(i - 1));
                assert(self.response_types@.take(i as int).last() == self.response_types@[i - 1]);
            }
            if str_eq(self.response_types[i - 1].0.as_str(), key.as_str()) {
                return self.response_types[i - 1].1;
            }
            i -= 1;
        }
        proof {
            assert(self.response_types@.take(0) =~= Seq::<(String, ResponseType)>::empty());
            assert(!Self::overrides_of(Seq::<(String, ResponseType)>::empty()).contains_key(key@));
        }
        self.default_response_type
    }

    /// Records an encoding override under an already lower-cased key; a later
    /// setting for the same key wins.
    pub(crate) fn insert_override(&mut self, key: String, mode: ResponseType)
        ensures
            final(self).overrides() == old(self).overrides().insert(key@, mode),
            final(self).default_response_type == old(self).default_response_type,
            final(self).base_path_behaviour == old(self).base_path_behaviour,
    {
        let ghost before = self.response_types@;
        let ghost k = key@;
        self.response_types.push((key, mode));
        proof {
            assert(self.response_types@.drop_last() =~= before);
            assert(self.response_types@.last() == (self.response_types@[before.len() as int]));
            assert(Self::overrides_of(self.response_types@) == Self::overrides_of(before).insert(
                k,
                mode,
            ));
        }
    }

    /// Replaces the default encoding mode, keeping the overrides.
    pub(crate) fn set_default(&mut self, mode: ResponseType)
        ensures
            final(self).default_response_type == mode,
            final(self).overrides() == old(self).overrides(),
            final(self).base_path_behaviour == old(self).base_path_behaviour,
    {
        self.default_response_type = mode;
    }

    /// Replaces the base-path mode, keeping everything else.
    pub(crate) fn set_behaviour(&mut self, behaviour: BasePathBehaviour)
        ensures
            final(self).base_path_behaviour == behaviour,
            final(self).overrides() == old(self).overrides(),
            final(self).default_response_type == old(self).default_response_type,
    {
        self.base_path_behaviour = behaviour;
    }

    /// A fresh configuration: text by default, no overrides, remount-and-include.
    pub fn new() -> (c: Config)
        ensures
            c.default_response_type == ResponseType::Text,
            c.overrides() == Map::<Seq<char>, ResponseType>::empty(),
            c.base_path_behaviour == BasePathBehaviour::RemountAndInclude,
    {
        Config {
            default_response_type: ResponseType::Text,
            response_types: Vec::new(),
            base_path_behaviour: BasePathBehaviour::RemountAndInclude,
        }
    }
}

impl Default for Config {
    /// The initial settings: text encoding, no overrides, remount-and-include.
    fn default() -> (c: Config)
        ensures
            c.default_response_type == ResponseType::Text,
            c.overrides() == Map::<Seq<char>, ResponseType>::empty(),
            c.base_path_behaviour == BasePathBehaviour::RemountAndInclude,
    {
        Config::new()
    }
}

} // verus!
