use vstd::prelude::*;
use vstd::string::StringExecFns;

verus! {

/// Process-wide settings, fixed at startup.
#[derive(Debug, PartialEq)]
pub struct Config {
    pub openai_api_key: String,
    pub qdrant_url: String,
    pub qdrant_api_key: Option<String>,
    pub collection_name: String,
    pub api_key: String,
}

/// A required setting that was not given; it names the variable.
#[derive(Debug, PartialEq)]
pub struct MissingSetting {
    pub name: String,
}

/// The value of an optional setting: the given one, else the default.
pub open spec fn setting_or(given: Option<String>, default: Seq<char>) -> Seq<char> {
    match given {
        Some(s) => s@,
        None => default,
    }
}

fn string_or(given: Option<String>, default: &str) -> (r: String)
    ensures
        r@ == setting_or(given, default@),
{
    match given {
        Some(s) => s,
        None => String::from_str(default),
    }
}

impl Config {
    /// Assembles the settings from the values of the process's variables
    /// `OPENAI_API_KEY`, `QDRANT_URL`, `QDRANT_API_KEY`, `COLLECTION_NAME` and
    /// `API_KEY`, `None` where a variable is unset. The two keys are required,
    /// the provider's first; the store's address defaults to
    /// `http://localhost:6333` and the collection to `documents`.
    pub fn from_vars(
        openai_api_key: Option<String>,
        qdrant_url: Option<String>,
        qdrant_api_key: Option<String>,
        collection_name: Option<String>,
        api_key: Option<String>,
    ) -> (r: Result<Config, MissingSetting>)
        ensures
            r is Ok <==> (openai_api_key is Some && api_key is Some),
            openai_api_key is None ==> (r matches Err(e) && e.name@ == "OPENAI_API_KEY"@),
            openai_api_key is Some && api_key is None ==> (r matches Err(e) && e.name@ == "API_KEY"@),
            r matches Ok(c) ==> {
                &&& openai_api_key == Some(c.openai_api_key)
                &&& api_key == Some(c.api_key)
                &&& c.qdrant_url@ == setting_or(qdrant_url, "http://localhost:6333"@)
                &&& c.qdrant_api_key == qdrant_api_key
                &&& c.collection_name@ == setting_or(collection_name, "documents"@)
            },
    {
        let openai_api_key = match openai_api_key {
            Some(k) => k,
            None => {
                return Err(MissingSetting { name: String::from_str("OPENAI_API_KEY") });
            },
        };
        let qdrant_url = string_or(qdrant_url, "http://localhost:6333");
        let collection_name = string_or(collection_name, "documents");
        let api_key = match api_key {
            Some(k) => k,
            None => {
                return Err(MissingSetting { name: String::from_str("API_KEY") });
            },
        };
        Ok(Config { openai_api_key, qdrant_url, qdrant_api_key, collection_name, api_key })
    }
}

} // verus!
