use vstd::prelude::*;
use vstd::string::StringExecFns;

verus! {

/// The client's settings.
#[derive(Clone, Debug)]
pub struct ClientConfig {
    /// Address of the streaming service.
    pub jetstream_grpc_url: String,
    /// Bearer token for the service, if any.
    pub x_token: Option<String>,
    /// Path of a file of named filters.
    pub filter_config_path: Option<String>,
    /// Accounts a transaction must touch one of.
    pub include_accounts: Option<Vec<String>>,
    /// Accounts a transaction must not touch.
    pub exclude_accounts: Option<Vec<String>>,
    /// Accounts a transaction must touch all of.
    pub required_accounts: Option<Vec<String>>,
    /// Whether to ask for the parsed stream instead of raw transactions.
    pub parsed_enabled: bool,
}

/// One transaction filter: the accounts to let in, keep out and require.
#[derive(Clone, Debug, PartialEq, Eq)]
pub struct Filter {
    pub account_include: Vec<String>,
    pub account_exclude: Vec<String>,
    pub account_required: Vec<String>,
}

/// The named filters read from a filter file.
#[derive(Clone, Debug, PartialEq, Eq)]
pub struct FilterConfig {
    pub filters: Vec<(String, Filter)>,
}

/// Why no filter set could be built.
#[derive(Clone, Copy, Debug, PartialEq, Eq)]
pub enum ConfigError {
    /// A filter file is configured, but its contents were not supplied.
    FilterFileUnavailable,
}

/// What a filter holds.
pub struct FilterModel {
    pub included: Seq<Seq<char>>,
    pub excluded: Seq<Seq<char>>,
    pub required: Seq<Seq<char>>,
}

pub open spec fn strings_of(v: Seq<String>) -> Seq<Seq<char>> {
    v.map_values(|s: String| s@)
}

impl View for Filter {
    type V = FilterModel;

    open spec fn view(&self) -> FilterModel {
        FilterModel {
            included: strings_of(self.account_include@),
            excluded: strings_of(self.account_exclude@),
            required: strings_of(self.account_required@),
        }
    }
}

/// A list of named filters, as names and contents.
pub open spec fn named_filters(v: Seq<(String, Filter)>) -> Seq<(Seq<char>, FilterModel)> {
    v.map_values(|p: (String, Filter)| (p.0@, p.1@))
}

/// No two filters of the list share a name.
pub open spec fn names_unique(v: Seq<(Seq<char>, FilterModel)>) -> bool {
    forall|i: int, j: int| 0 <= i < v.len() && 0 <= j < v.len() && i != j ==> v[i].0 != v[j].0
}

impl FilterConfig {
    pub open spec fn wf(&self) -> bool {
        names_unique(named_filters(self.filters@))
    }
}

/// Whether any account list is given directly.
pub open spec fn has_direct_lists(c: ClientConfig) -> bool {
    c.include_accounts is Some || c.exclude_accounts is Some || c.required_accounts is Some
}

pub open spec fn list_or_empty(l: Option<Vec<String>>) -> Seq<Seq<char>> {
    match l {
        Some(v) => strings_of(v@),
        None => Seq::empty(),
    }
}

/// The filter with no account lists: it lets every transaction through.
pub open spec fn empty_filter() -> FilterModel {
    FilterModel { included: Seq::empty(), excluded: Seq::empty(), required: Seq::empty() }
}

/// The filter set for settings `c`, with `file` the contents of the filter file if
/// they were read. A configured file wins over the direct lists, which win over the
/// default filter.
pub open spec fn filters_spec(c: ClientConfig, file: Option<Seq<(Seq<char>, FilterModel)>>) -> Result<
    Seq<(Seq<char>, FilterModel)>,
    ConfigError,
> {
    if c.filter_config_path is Some {
        match file {
            Some(f) => Ok(f),
            None => Err(ConfigError::FilterFileUnavailable),
        }
    } else if has_direct_lists(c) {
        Ok(
            seq![
                ("cli-filter"@, FilterModel {
                    included: list_or_empty(c.include_accounts),
                    excluded: list_or_empty(c.exclude_accounts),
                    required: list_or_empty(c.required_accounts),
                }),
            ],
        )
    } else {
        Ok(seq![("default"@, empty_filter())])
    }
}

pub open spec fn file_view(file: Option<FilterConfig>) -> Option<Seq<(Seq<char>, FilterModel)>> {
    match file {
        Some(f) => Some(named_filters(f.filters@)),
        None => None,
    }
}

pub open spec fn built_view(r: Result<Vec<(String, Filter)>, ConfigError>) -> Result<
    Seq<(Seq<char>, FilterModel)>,
    ConfigError,
> {
    match r {
        Ok(v) => Ok(named_filters(v@)),
        Err(e) => Err(e),
    }
}

fn copy_list(l: &Option<Vec<String>>) -> (r: Vec<String>)
    ensures
        strings_of(r@) == list_or_empty(*l),
{
    match l {
        Some(v) => {
            let c = v.clone();
            assert(c@ =~= v@);
            c
        },
        None => {
            let e: Vec<String> = Vec::new();
            assert(strings_of(e@) =~= Seq::<Seq<char>>::empty());
            e
        },
    }
}

/// Builds the filter set to subscribe with. `file` holds the filter file's contents
/// when `config` names a file and it was read.
pub fn build_filters(config: &ClientConfig, file: Option<FilterConfig>) -> (r: Result<
    Vec<(String, Filter)>,
    ConfigError,
>)
    ensures
        built_view(r) == filters_spec(*config, file_view(file)),
        r is Ok && (config.filter_config_path is None || (file matches Some(f) && f.wf()))
            ==> names_unique(built_view(r)->Ok_0),
{
    if config.filter_config_path.is_some() {
        match file {
            Some(f) => Ok(f.filters),
            None => Err(ConfigError::FilterFileUnavailable),
        }
    } else if config.include_accounts.is_some() || config.exclude_accounts.is_some()
        || config.required_accounts.is_some() {
        let filter = Filter {
            account_include: copy_list(&config.include_accounts),
            account_exclude: copy_list(&config.exclude_accounts),
            account_required: copy_list(&config.required_accounts),
        };
        let mut out: Vec<(String, Filter)> = Vec::new();
        out.push((String::from_str("cli-filter"), filter));
        proof {
            reveal_strlit("cli-filter");
        }
        assert(named_filters(out@) =~= filters_spec(*config, file_view(file))->Ok_0);
        Ok(out)
    } else {
        let filter = Filter {
            account_include: Vec::new(),
            account_exclude: Vec::new(),
            account_required: Vec::new(),
        };
        let mut out: Vec<(String, Filter)> = Vec::new();
        out.push((String::from_str("default"), filter));
        assert(strings_of(Seq::<String>::empty()) =~= Seq::<Seq<char>>::empty());
        assert(named_filters(out@) =~= filters_spec(*config, file_view(file))->Ok_0);
        Ok(out)
    }
}

/// The token to send with the subscription: present only when one is configured and
/// it is not empty.
pub fn bearer_token(x_token: &Option<String>) -> (r: Option<String>)
    ensures
        r matches Some(t) ==> x_token matches Some(x) && t@ == x@ && t@.len() > 0,
        r is None ==> (x_token matches Some(x) ==> x@.len() == 0),
{
    match x_token {
        Some(t) => {
            if t.as_str().is_empty() {
                None
            } else {
                Some(t.clone())
            }
        },
        None => None,
    }
}

/// When a filter file is configured and read, the filter set is exactly its contents,
/// whatever account lists are also given; when it was not read, building fails
/// instead of falling back to the other sources.
pub proof fn lemma_file_precedence(c: ClientConfig, f: Seq<(Seq<char>, FilterModel)>)
    requires
        c.filter_config_path is Some,
    ensures
        filters_spec(c, Some(f)) == Ok::<Seq<(Seq<char>, FilterModel)>, ConfigError>(f),
        filters_spec(c, None) == Err::<Seq<(Seq<char>, FilterModel)>, ConfigError>(
            ConfigError::FilterFileUnavailable,
        ),
{
}

/// With no filter file and no direct account lists, the filter set is the one empty
/// filter named `default`.
pub proof fn lemma_default_filter(c: ClientConfig, file: Option<Seq<(Seq<char>, FilterModel)>>)
    requires
        c.filter_config_path is None,
        !has_direct_lists(c),
    ensures
        filters_spec(c, file) == Ok::<Seq<(Seq<char>, FilterModel)>, ConfigError>(
            seq![("default"@, empty_filter())],
        ),
{
}

} // verus!
