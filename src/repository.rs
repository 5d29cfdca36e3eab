//! The node list of a cluster and the services built on it.
use vstd::prelude::*;
use vstd::string::*;
use crate::config::ElasticServerConfig;
use crate::gateway::NodeFailover;

verus! {

/// What `urlencoding::encode` makes of a text.
pub uninterp spec fn percent_encoded(s: Seq<char>) -> Seq<char>;

/// Relies on `urlencoding::encode`: percent-encodes every byte but ASCII
/// letters, digits and `-_.~`; the result depends on the text alone.
#[verifier::external_body]
fn percent_encode(s: &str) -> (r: String)
    ensures
        r@ == percent_encoded(s@),
{
    urlencoding::encode(s).into_owned()
}

/// Address of one node: with credentials when both an id and a password
/// are configured, the password percent-encoded.
pub open spec fn spec_node_url(cfg: ElasticServerConfig, host: Seq<char>) -> Seq<char> {
    match (cfg.elastic_id, cfg.elastic_pw) {
        (Some(id), Some(pw)) => "http://"@ + id@ + ":"@ + percent_encoded(pw@) + "@"@ + host,
        _ => "http://"@ + host,
    }
}

fn node_url(es_config: &ElasticServerConfig, host: &String) -> (r: String)
    ensures
        r@ == spec_node_url(*es_config, host@),
{
    let mut url: String = String::from_str("http://");
    match (&es_config.elastic_id, &es_config.elastic_pw) {
        (Some(id), Some(pw)) => {
            url.append(id.as_str());
            url.append(":");
            url.append(percent_encode(pw.as_str()).as_str());
            url.append("@");
        },
        _ => {},
    }
    url.append(host.as_str());
    url
}

/// The nodes of one cluster, any of which can serve a call.
#[derive(Clone, Debug)]
pub struct EsRepositoryImpl {
    pub node_urls: Vec<String>,
}

impl EsRepositoryImpl {
    /// One address per configured host, in configuration order.
    pub fn new(es_config: &ElasticServerConfig) -> (r: EsRepositoryImpl)
        ensures
            r.node_urls@.len() == es_config.elastic_host@.len(),
            forall|i: int| 0 <= i < r.node_urls@.len()
                ==> (#[trigger] r.node_urls@[i])@ == spec_node_url(*es_config, es_config.elastic_host@[i]@),
    {
        let mut node_urls: Vec<String> = Vec::new();
        let mut i: usize = 0;
        while i < es_config.elastic_host.len()
            invariant
                i <= es_config.elastic_host@.len(),
                node_urls@.len() == i,
                forall|k: int| 0 <= k < i
                    ==> (#[trigger] node_urls@[k])@ == spec_node_url(*es_config, es_config.elastic_host@[k]@),
            decreases es_config.elastic_host@.len() - i,
        {
            node_urls.push(node_url(es_config, &es_config.elastic_host[i]));
            i = i + 1;
        }
        EsRepositoryImpl { node_urls }
    }

    /// Starts one logical call: every node, in a fresh random order.
    pub fn start_call(&self) -> (r: NodeFailover)
        ensures
            r.tried == 0,
            r.last_error.is_none(),
            r.order@.len() == self.node_urls@.len(),
            forall|j: usize| j < self.node_urls@.len() ==> r.order@.contains(j),
            forall|i: int| 0 <= i < r.order@.len() ==> r.order@[i] < self.node_urls@.len(),
    {
        NodeFailover::shuffled(self.node_urls.len())
    }
}

/// Queries and writes of one cluster.
#[derive(Clone, Debug)]
pub struct QueryServiceImpl {
    pub es_conn: EsRepositoryImpl,
}

impl QueryServiceImpl {
    pub fn new(es_conn: EsRepositoryImpl) -> (r: QueryServiceImpl)
        ensures
            r.es_conn == es_conn,
    {
        QueryServiceImpl { es_conn }
    }
}

} // verus!
