//! The plugin on the server: its configuration, its kind, its feed, and the
//! start of the creation of an experience.

use vstd::prelude::*;
use crate::create::{begin_create, spec_begin, ConfigData, ConfigDataView, CreateState};
use crate::error::{ApiError, ApiErrorView};
use crate::event::{feed_view, CompressedEvent, CreateExperienceRequest, PluginKind};
use crate::feed::{
    all_readable, compressed_events, is_first_failure, placeholder_entries, stored_entries,
    StoredRecord,
};
use crate::timing::TimeRange;
use crate::web::{parsed_url, validate_url};

verus! {

/// Why the plugin cannot start.
#[derive(Clone, Debug, PartialEq, Eq)]
pub enum ConfigError {
    /// No configuration was provided.
    Missing,
    /// The configuration does not fit, for this reason.
    Unfit(String),
}

/// What is said when no configuration was provided.
pub open spec fn spec_missing_message() -> Seq<char> {
    "Failed to init experiences plugin! No config was provided!"@
}

/// What is said when the configuration does not fit.
pub open spec fn spec_unfit_message(reason: Seq<char>) -> Seq<char> {
    "Unable to init experiences plugin! Provided config does not fit the requirements: "@ + reason
}

impl ConfigError {
    /// What is said of the error.
    pub open spec fn spec_message(&self) -> Seq<char> {
        match self {
            ConfigError::Missing => spec_missing_message(),
            ConfigError::Unfit(reason) => spec_unfit_message(reason@),
        }
    }

    /// What is said of the error.
    pub fn message(&self) -> (r: String)
        ensures
            r@ == self.spec_message(),
    {
        match self {
            ConfigError::Missing => String::from_str(
                "Failed to init experiences plugin! No config was provided!",
            ),
            ConfigError::Unfit(reason) => String::from_str(
                "Unable to init experiences plugin! Provided config does not fit the requirements: ",
            ).concat(reason.as_str()),
        }
    }
}

/// The plugin on the server.
#[derive(Debug, PartialEq, Eq)]
pub struct Plugin {
    config: ConfigData,
}

impl View for Plugin {
    type V = ConfigDataView;

    /// The configuration that the plugin runs with.
    closed spec fn view(&self) -> ConfigDataView {
        self.config@
    }
}

impl Clone for Plugin {
    /// A plugin with the same configuration.
    fn clone(&self) -> (r: Plugin)
        ensures
            r@ == self@,
    {
        proof {
            use_type_invariant(self);
        }
        Plugin {
            config: ConfigData {
                password: self.config.password.clone(),
                url: self.config.url.clone(),
            },
        }
    }
}

impl Plugin {
    /// What holds of every plugin: the address of the experiences server
    /// that it was configured with is an absolute address.
    #[verifier::type_invariant]
    pub closed spec fn wf(&self) -> bool {
        parsed_url(self.config.url@) is Some
    }

    /// Starts the plugin with a configuration that fits: one whose `url` is
    /// an absolute address. There is no plugin without such a configuration.
    /// A caller that has not shown this of its configuration goes through
    /// [`Plugin::try_new`], and does not start on its error.
    pub fn new(config: ConfigData) -> (r: Plugin)
        requires
            parsed_url(config.url@) is Some,
        ensures
            r@ == config@,
    {
        Plugin { config }
    }

    /// Tests whether the plugin can start with what was configured, and
    /// starts it where it can. It cannot without a configuration, nor with
    /// one whose `url` is no absolute address.
    pub fn try_new(config: Option<ConfigData>) -> (r: Result<Plugin, ConfigError>)
        ensures
            r is Ok <==> (config matches Some(given) && parsed_url(given.url@) is Some),
            r matches Ok(plugin) ==> (config matches Some(given) && plugin@ == given@),
            config is None ==> r == Err::<Plugin, ConfigError>(ConfigError::Missing),
            config is Some ==> !(r matches Err(ConfigError::Missing)),
    {
        match config {
            None => Err(ConfigError::Missing),
            Some(given) => match validate_url(given.url.as_str()) {
                Ok(_) => Ok(Plugin::new(given)),
                Err(error) => Err(ConfigError::Unfit(error.message)),
            },
        }
    }

    /// The kind under which the plugin stores and reports.
    pub fn get_type() -> (r: PluginKind)
        ensures
            r == PluginKind::Experience,
    {
        PluginKind::Experience
    }

    /// The address of the experiences server.
    pub fn url(&self) -> (r: &String)
        ensures
            r@ == self@.url,
            parsed_url(r@) is Some,
    {
        proof {
            use_type_invariant(self);
        }
        &self.config.url
    }

    /// The password that the plugin shares with the experiences server.
    pub fn password(&self) -> (r: &String)
        ensures
            r@ == self@.password,
    {
        &self.config.password
    }

    /// The feed of `query_range`, from what the store answered to the query
    /// for the plugin's events: an entry for each stored experience whose
    /// timing lies inside the range, and after them one offer to create an
    /// experience for each hour of the range. A query that failed, or a
    /// record that could not be read, fails the whole feed.
    pub fn get_compressed_events(
        &self,
        query_range: &TimeRange,
        answer: &Result<Vec<StoredRecord>, String>,
    ) -> (out: Result<Vec<CompressedEvent>, ApiError>)
        ensures
            out is Ok <==> (answer matches Ok(records) && all_readable(records@)),
            out matches Ok(feed) ==> (answer matches Ok(records) && feed_view(feed@)
                == stored_entries(*query_range, records@) + placeholder_entries(*query_range)),
            answer matches Err(reason) ==> (out matches Err(e) && e@
                == ApiErrorView::PersistenceError(reason@)),
            answer matches Ok(records) ==> (out matches Err(e) ==> exists|i: int|
                is_first_failure(records@, i) && e@ == ApiErrorView::PersistenceError(
                    #[trigger] records@[i]->Err_0@,
                )),
    {
        match answer {
            Ok(records) => compressed_events(query_range, records),
            Err(reason) => Err(ApiError::PersistenceError(reason.clone())),
        }
    }

    /// The state in which the creation of what `request` asks for begins.
    pub fn begin_create(&self, request: CreateExperienceRequest) -> (r: CreateState)
        ensures
            r@ == spec_begin(request@, self@),
    {
        let config = ConfigData {
            password: self.config.password.clone(),
            url: self.config.url.clone(),
        };
        begin_create(request, config)
    }
}

} // verus!
