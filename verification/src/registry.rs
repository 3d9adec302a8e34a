//! The registry: the known datasets by name, and what loading one amounts to
//! once its payload has been sought.

use vstd::prelude::*;
use crate::decode::{decode, decoded, DecodeError, DecodeErrorView};
use crate::fetch::{
    fetched, interpret, Attempt, AttemptView, Encoding, FetchError, RawPayload, RawPayloadView,
    SourceLocator,
};
use crate::model::views;
use crate::schema::{FieldView, Schema};
use crate::table::{materialize, materialized, Table, TableView};

verus! {

/// One known dataset: its name, where its payload is found, the schema of its
/// rows, and how its payload is encoded.
#[derive(Debug, PartialEq, Eq)]
pub struct Provider {
    pub name: String,
    pub locator: SourceLocator,
    pub schema: Schema,
    pub encoding: Encoding,
}

/// A provider as the contracts see it.
pub struct ProviderView {
    pub name: Seq<char>,
    pub locator: Seq<char>,
    pub schema: Seq<FieldView>,
    pub encoding: Encoding,
}

impl View for Provider {
    type V = ProviderView;

    open spec fn view(&self) -> ProviderView {
        ProviderView {
            name: self.name@,
            locator: self.locator@,
            schema: self.schema@,
            encoding: self.encoding,
        }
    }
}

/// Why a dataset was not loaded.
#[derive(Debug, PartialEq, Eq)]
pub enum LoadError {
    /// No dataset of that name is registered.
    UnknownDataset(String),
    /// The payload could not be retrieved.
    FetchFailed(FetchError),
    /// The payload was retrieved and then refused.
    DecodeFailed(DecodeError),
}

/// A load error as the contracts see it.
pub enum LoadErrorView {
    UnknownDataset(Seq<char>),
    FetchFailed(FetchError),
    DecodeFailed(DecodeErrorView),
}

impl View for LoadError {
    type V = LoadErrorView;

    open spec fn view(&self) -> LoadErrorView {
        match self {
            LoadError::UnknownDataset(name) => LoadErrorView::UnknownDataset(name@),
            LoadError::FetchFailed(error) => LoadErrorView::FetchFailed(*error),
            LoadError::DecodeFailed(error) => LoadErrorView::DecodeFailed(error@),
        }
    }
}

/// A result of loading as the contracts see it.
pub open spec fn load_view(outcome: Result<Table, LoadError>) -> Result<TableView, LoadErrorView> {
    match outcome {
        Ok(table) => Ok(table@),
        Err(error) => Err(error@),
    }
}

/// The table of a payload under a schema, or the error that refuses it.
pub open spec fn tabulated(payload: RawPayloadView, schema: Seq<FieldView>) -> Result<
    TableView,
    LoadErrorView,
> {
    match decoded(payload, schema) {
        Ok(records) => Ok(materialized(records, schema)),
        Err(error) => Err(LoadErrorView::DecodeFailed(error)),
    }
}

/// What loading a dataset gives once its payload has been sought: the first
/// failure, of the retrieval or of the decoding, or else the table.
pub open spec fn loaded(provider: ProviderView, attempt: AttemptView) -> Result<
    TableView,
    LoadErrorView,
> {
    match fetched(attempt, provider.encoding) {
        Ok(payload) => tabulated(payload, provider.schema),
        Err(error) => Err(LoadErrorView::FetchFailed(error)),
    }
}

/// No two providers share a name.
pub open spec fn distinct_providers(providers: Seq<ProviderView>) -> bool {
    forall|a: int, b: int|
        0 <= a < b < providers.len() ==> providers[a].name != providers[b].name
}

/// Some provider has the name.
pub open spec fn is_registered(providers: Seq<ProviderView>, name: Seq<char>) -> bool {
    exists|k: int| 0 <= k < providers.len() && #[trigger] providers[k].name == name
}

/// The names of the providers, in the same order.
pub open spec fn names_of(providers: Seq<ProviderView>) -> Seq<Seq<char>> {
    Seq::new(providers.len(), |k: int| providers[k].name)
}

impl Provider {
    /// Decodes a payload against the provider's schema and lays the records
    /// out as a table.
    pub fn tabulate(&self, payload: &RawPayload) -> (r: Result<Table, LoadError>)
        ensures
            load_view(r) == tabulated(payload@, self@.schema),
    {
        match decode(payload, &self.schema) {
            Ok(records) => Ok(materialize(&records, &self.schema)),
            Err(error) => Err(LoadError::DecodeFailed(error)),
        }
    }

    /// Finishes loading the provider's dataset from one attempt to retrieve
    /// its payload.
    pub fn load(&self, attempt: Attempt) -> (r: Result<Table, LoadError>)
        ensures
            load_view(r) == loaded(self@, attempt@),
    {
        match interpret(attempt, self.encoding) {
            Ok(payload) => self.tabulate(&payload),
            Err(error) => Err(LoadError::FetchFailed(error)),
        }
    }
}

/// The known datasets, in the order in which they were registered. No two of
/// them share a name.
#[derive(Debug, PartialEq, Eq)]
pub struct Registry {
    providers: Vec<Provider>,
}

impl View for Registry {
    type V = Seq<ProviderView>;

    closed spec fn view(&self) -> Seq<ProviderView> {
        views(self.providers@)
    }
}

impl Registry {
    /// What holds of every registry: no two providers share a name.
    #[verifier::type_invariant]
    pub open spec fn valid(self) -> bool {
        distinct_providers(self@)
    }

    /// A registry without providers.
    pub fn new() -> (r: Registry)
        ensures
            r@ == Seq::<ProviderView>::empty(),
    {
        let providers: Vec<Provider> = Vec::new();
        Registry { providers }
    }

    /// The number of providers.
    pub fn len(&self) -> (r: usize)
        ensures
            r == self@.len(),
    {
        self.providers.len()
    }

    /// Adds a provider after those that are there, unless one of them has its
    /// name: then nothing changes. Says whether the provider was added.
    pub fn register(&mut self, provider: Provider) -> (added: bool)
        ensures
            added == !is_registered(old(self)@, provider@.name),
            added ==> final(self)@ == old(self)@.push(provider@),
            !added ==> final(self)@ == old(self)@,
    {
        proof {
            use_type_invariant(&*self);
        }
        let mut k: usize = 0;
        while k < self.providers.len()
            invariant
                k <= self.providers@.len(),
                forall|a: int| 0 <= a < k ==> (#[trigger] self@[a]).name != provider@.name,
            decreases self.providers@.len() - k,
        {
            if self.providers[k].name == provider.name {
                assert(self@[k as int].name == provider@.name);
                return false;
            }
            k += 1;
        }
        proof {
            crate::model::views_push(self.providers@, provider);
        }
        let mut providers: Vec<Provider> = Vec::new();
        std::mem::swap(&mut providers, &mut self.providers);
        providers.push(provider);
        self.providers = providers;
        true
    }

    /// The names of the known datasets, in the order of their registration.
    pub fn available_names(&self) -> (r: Vec<String>)
        ensures
            views(r@) == names_of(self@),
    {
        let mut names: Vec<String> = Vec::new();
        let mut k: usize = 0;
        while k < self.providers.len()
            invariant
                k <= self.providers@.len(),
                names@.len() == k,
                forall|a: int| 0 <= a < k ==> (#[trigger] names@[a])@ == self@[a].name,
            decreases self.providers@.len() - k,
        {
            names.push(self.providers[k].name.clone());
            k += 1;
        }
        names
    }

    /// Loads the dataset called `name`: resolves the name, has `fetch` seek the
    /// payload at the provider's locator, once, and finishes with what came of
    /// it. Where no such dataset is registered, `fetch` is not called.
    pub fn load<F: FnOnce(&SourceLocator) -> Attempt>(&self, name: &str, fetch: F) -> (r: Result<
        Table,
        LoadError,
    >)
        requires
            forall|k: int, locator: &SourceLocator|
                #![trigger self@[k], call_requires(fetch, (locator,))]
                0 <= k < self@.len() && self@[k].name == name@ && locator@ == self@[k].locator
                    ==> call_requires(fetch, (locator,)),
        ensures
            !is_registered(self@, name@) ==> load_view(r) == Err::<TableView, LoadErrorView>(
                LoadErrorView::UnknownDataset(name@),
            ),
            is_registered(self@, name@) ==> exists|k: int, locator: SourceLocator, attempt: Attempt|
                {
                    &&& 0 <= k < self@.len()
                    &&& (#[trigger] self@[k]).name == name@
                    &&& locator@ == self@[k].locator
                    &&& #[trigger] call_ensures(fetch, (&locator,), attempt)
                    &&& load_view(r) == loaded(self@[k], attempt@)
                },
    {
        match self.resolve(name) {
            Ok(provider) => provider.load(fetch(&provider.locator)),
            Err(error) => Err(error),
        }
    }

    /// The provider of the dataset called `name`. Where no such dataset is
    /// registered the error says so, and there is nothing to retrieve.
    pub fn resolve(&self, name: &str) -> (r: Result<&Provider, LoadError>)
        ensures
            match r {
                Ok(provider) => provider@.name == name@ && exists|k: int|
                    0 <= k < self@.len() && #[trigger] self@[k] == provider@,
                Err(error) => !is_registered(self@, name@) && error@
                    == LoadErrorView::UnknownDataset(name@),
            },
    {
        let key = name.to_owned();
        let mut k: usize = 0;
        while k < self.providers.len()
            invariant
                k <= self.providers@.len(),
                key@ == name@,
                forall|a: int| 0 <= a < k ==> (#[trigger] self@[a]).name != name@,
            decreases self.providers@.len() - k,
        {
            if self.providers[k].name == key {
                assert(self@[k as int] == self.providers@[k as int]@);
                return Ok(&self.providers[k]);
            }
            k += 1;
        }
        Err(LoadError::UnknownDataset(key))
    }
}

} // verus!
