//! Standalone download mode: where each asset is written, how the per-asset
//! results combine, and the manifest of written paths.
use vstd::prelude::*;
use crate::release::Asset;

verus! {

/// `s` with every `/` replaced by `_`.
pub open spec fn flatten_slashes(s: Seq<char>) -> Seq<char> {
    s.map_values(|c: char| if c == '/' { '_' } else { c })
}

/// Viewing the strings of a sequence commutes with pushing one more.
pub proof fn lemma_views_push(s: Seq<String>, x: String)
    ensures
        s.push(x).map_values(|p: String| p@) == s.map_values(|p: String| p@).push(x@),
{
    assert(s.push(x).map_values(|p: String| p@) =~= s.map_values(|p: String| p@).push(x@));
}

/// Directory that receives a repository's assets.
pub open spec fn asset_dir_text(repo: Seq<char>) -> Seq<char> {
    "assets/"@ + flatten_slashes(repo)
}

/// Local path of an asset inside a directory.
pub open spec fn asset_path_text(dir: Seq<char>, name: Seq<char>) -> Seq<char> {
    dir + "/"@ + name
}

/// Renders the directory of a repository's assets: `assets/owner_name`.
pub fn asset_dir(repo: &str) -> (r: String)
    ensures
        r@ == asset_dir_text(repo@),
{
    let mut flat = String::new();
    let n = repo.unicode_len();
    let mut i: usize = 0;
    while i < n
        invariant
            n == repo@.len(),
            i <= n,
            flat@ == flatten_slashes(repo@.take(i as int)),
        decreases n - i,
    {
        let c = repo.get_char(i);
        let ghost before = flat@;
        if c == '/' {
            proof {
                reveal_strlit("_");
            }
            flat.append("_");
        } else {
            flat.append(repo.substring_char(i, i + 1));
        }
        assert(flat@ =~= before.push(if c == '/' { '_' } else { c }));
        assert(repo@.take(i + 1) =~= repo@.take(i as int).push(c));
        assert(flatten_slashes(repo@.take(i + 1)) =~= flatten_slashes(repo@.take(i as int)).push(
            if c == '/' { '_' } else { c },
        ));
        i = i + 1;
    }
    assert(repo@.take(n as int) =~= repo@);
    let mut s = String::from_str("assets/");
    s.append(flat.as_str());
    s
}

/// The path that each asset is written to, in release order.
pub open spec fn planned_paths_text(repo: Seq<char>, assets: Seq<Asset>) -> Seq<Seq<char>> {
    assets.map_values(|a: Asset| asset_path_text(asset_dir_text(repo), a.name@))
}

/// Lists where each asset of a release is written: `assets/owner_name/<name>`.
pub fn planned_paths(repo: &str, assets: &Vec<Asset>) -> (r: Vec<String>)
    ensures
        r@.len() == assets@.len(),
        r@.map_values(|p: String| p@) == planned_paths_text(repo@, assets@),
{
    let dir = asset_dir(repo);
    let mut r: Vec<String> = Vec::new();
    let mut i: usize = 0;
    while i < assets.len()
        invariant
            i <= assets@.len(),
            dir@ == asset_dir_text(repo@),
            r@.map_values(|p: String| p@) == planned_paths_text(repo@, assets@.take(i as int)),
        decreases assets@.len() - i,
    {
        let mut p = String::from_str(dir.as_str());
        p.append("/");
        p.append(assets[i].name.as_str());
        proof {
            lemma_views_push(r@, p);
            assert(assets@.take(i + 1) =~= assets@.take(i as int).push(assets@[i as int]));
            assert(planned_paths_text(repo@, assets@.take(i + 1)) =~= planned_paths_text(
                repo@,
                assets@.take(i as int),
            ).push(asset_path_text(asset_dir_text(repo@), assets@[i as int].name@)));
        }
        r.push(p);
        i = i + 1;
    }
    assert(assets@.take(assets@.len() as int) =~= assets@);
    r
}

/// Some downloads failed: which assets failed, and where the others went.
#[derive(Clone, Debug)]
pub struct PartialDownloadError {
    /// Names of the assets whose download failed, in release order.
    pub failed: Vec<String>,
    /// Paths of the assets that were written, in release order.
    pub succeeded: Vec<String>,
}

/// The entries of `items` at the first `n` positions whose flag equals `keep`.
pub open spec fn select(items: Seq<Seq<char>>, ok: Seq<bool>, keep: bool, n: nat) -> Seq<Seq<char>>
    decreases n,
{
    if n == 0 {
        Seq::empty()
    } else {
        let i = (n - 1) as int;
        select(items, ok, keep, (n - 1) as nat) + if ok[i] == keep {
            seq![items[i]]
        } else {
            Seq::empty()
        }
    }
}

/// Every flag is set.
pub open spec fn all_ok(ok: Seq<bool>) -> bool {
    forall|i: int| 0 <= i < ok.len() ==> ok[i]
}

/// Combines the per-asset results of a download run (`ok[i]` for
/// `assets[i]`): all paths when every download succeeded, else an error that
/// names exactly the failed assets and lists exactly the written paths.
pub fn download_result(repo: &str, assets: &Vec<Asset>, ok: &Vec<bool>) -> (r: Result<Vec<String>, PartialDownloadError>)
    requires
        ok@.len() == assets@.len(),
    ensures
        r is Ok <==> all_ok(ok@),
        r matches Ok(paths) ==> paths@.map_values(|p: String| p@) == planned_paths_text(repo@, assets@),
        r matches Err(e) ==> e.failed@.map_values(|p: String| p@)
            == select(assets@.map_values(|a: Asset| a.name@), ok@, false, assets@.len()),
        r matches Err(e) ==> e.succeeded@.map_values(|p: String| p@)
            == select(planned_paths_text(repo@, assets@), ok@, true, assets@.len()),
{
    let paths = planned_paths(repo, assets);
    let ghost names = assets@.map_values(|a: Asset| a.name@);
    let ghost planned = planned_paths_text(repo@, assets@);
    let mut failed: Vec<String> = Vec::new();
    let mut succeeded: Vec<String> = Vec::new();
    let mut i: usize = 0;
    while i < assets.len()
        invariant
            i <= assets@.len(),
            ok@.len() == assets@.len(),
            paths@.len() == assets@.len(),
            names == assets@.map_values(|a: Asset| a.name@),
            planned == planned_paths_text(repo@, assets@),
            paths@.map_values(|p: String| p@) == planned,
            failed@.map_values(|p: String| p@) == select(names, ok@, false, i as nat),
            succeeded@.map_values(|p: String| p@) == select(planned, ok@, true, i as nat),
            (failed@.len() == 0) == (forall|j: int| 0 <= j < i ==> ok@[j]),
        decreases assets@.len() - i,
    {
        assert(paths@.map_values(|p: String| p@)[i as int] == planned[i as int]);
        assert(names[i as int] == assets@[i as int].name@);
        if ok[i] {
            let p = paths[i].clone();
            proof {
                lemma_views_push(succeeded@, p);
            }
            succeeded.push(p);
        } else {
            let name = assets[i].name.clone();
            proof {
                lemma_views_push(failed@, name);
            }
            failed.push(name);
        }
        i = i + 1;
    }
    if failed.len() == 0 {
        Ok(paths)
    } else {
        Err(PartialDownloadError { failed, succeeded })
    }
}

/// The manifest: one path per line, each line ended by a newline.
pub open spec fn manifest_text(paths: Seq<Seq<char>>) -> Seq<char>
    decreases paths.len(),
{
    if paths.len() == 0 {
        Seq::empty()
    } else {
        manifest_text(paths.drop_last()) + paths.last() + "\n"@
    }
}

/// Renders the manifest file that lists the written paths.
pub fn manifest(paths: &Vec<String>) -> (r: String)
    ensures
        r@ == manifest_text(paths@.map_values(|p: String| p@)),
{
    let mut s = String::new();
    let mut i: usize = 0;
    while i < paths.len()
        invariant
            i <= paths@.len(),
            s@ == manifest_text(paths@.take(i as int).map_values(|p: String| p@)),
        decreases paths@.len() - i,
    {
        s.append(paths[i].as_str());
        s.append("\n");
        assert(paths@.take(i + 1).map_values(|p: String| p@).drop_last()
            =~= paths@.take(i as int).map_values(|p: String| p@));
        i = i + 1;
    }
    assert(paths@.take(paths@.len() as int) =~= paths@);
    s
}

} // verus!
