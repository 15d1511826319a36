use vstd::prelude::*;

verus! {

/// A flat, host-facing snapshot of an engine configuration: every ICE server
/// URL in configuration order.
#[derive(Debug)]
pub struct SpecterConfig {
    pub ice_servers: Vec<String>,
}

impl SpecterConfig {
    /// Flattens the per-server URL lists of an engine configuration into one
    /// ordered list. The host extracts `urls_by_server` from the native
    /// configuration value, one inner list per configured ICE server.
    pub fn from_rtc_configuration(urls_by_server: &Vec<Vec<String>>) -> (r: SpecterConfig)
        ensures
            r.ice_servers.deep_view() == urls_by_server.deep_view().flatten(),
    {
        let ghost all: Seq<Seq<Seq<char>>> = urls_by_server.deep_view();
        let mut urls: Vec<String> = Vec::new();
        let mut i: usize = 0;
        proof {
            assert(all.take(0int).flatten() =~= Seq::<Seq<char>>::empty());
        }
        while i < urls_by_server.len()
            invariant
                i <= urls_by_server.len(),
                all == urls_by_server.deep_view(),
                urls.deep_view() == all.take(i as int).flatten(),
            decreases urls_by_server.len() - i,
        {
            let group = &urls_by_server[i];
            let ghost g: Seq<Seq<char>> = all[i as int];
            let mut j: usize = 0;
            while j < group.len()
                invariant
                    j <= group.len(),
                    i < urls_by_server.len(),
                    all == urls_by_server.deep_view(),
                    group.deep_view() == g,
                    g == all[i as int],
                    urls.deep_view() == all.take(i as int).flatten() + g.take(j as int),
                decreases group.len() - j,
            {
                let url = group[j].clone();
                let ghost pre = urls.deep_view();
                proof {
                    assert(url.deep_view() == g[j as int]);
                }
                urls.push(url);
                proof {
                    assert(urls.deep_view() =~= pre.push(g[j as int]));
                    assert(g.take(j + 1int) =~= g.take(j as int).push(g[j as int]));
                    assert(urls.deep_view() =~= all.take(i as int).flatten() + g.take(
                        j + 1int,
                    ));
                }
                j = j + 1;
            }
            proof {
                assert(g.take(g.len() as int) =~= g);
                all.take(i as int).lemma_flatten_push(g);
                assert(all.take(i + 1int) =~= all.take(i as int).push(g));
                assert(urls.deep_view() =~= all.take(i + 1int).flatten());
            }
            i = i + 1;
        }
        proof {
            assert(all.take(urls_by_server.len() as int) =~= all);
        }
        SpecterConfig { ice_servers: urls }
    }
}

} // verus!
