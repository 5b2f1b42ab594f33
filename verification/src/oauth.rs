use vstd::prelude::*;
use crate::user_config::UserConfig;

verus! {

/// Every scope the client asks for.
pub open spec fn all_scopes() -> Seq<Seq<char>> {
    seq![
        "user-read-email"@,
        "user-read-private"@,
        "user-top-read"@,
        "user-read-recently-played"@,
        "user-follow-read"@,
        "user-library-read"@,
        "user-read-currently-playing"@,
        "user-read-playback-state"@,
        "user-read-playback-position"@,
        "playlist-read-collaborative"@,
        "playlist-read-private"@,
        "user-follow-modify"@,
        "user-library-modify"@,
        "user-modify-playback-state"@,
        "playlist-modify-public"@,
        "playlist-modify-private"@,
        "ugc-image-upload"@,
    ]
}

/// The OAuth settings of the client: where to send the browser back to and
/// which scopes to ask for.
#[derive(Debug, Clone)]
pub struct OAuthSetup {
    pub redirect_uri: String,
    pub scopes: Vec<String>,
}

/// The views of a list of strings.
pub open spec fn views(v: Seq<String>) -> Seq<Seq<char>> {
    v.map_values(|s: String| s@)
}

fn push_scope(scopes: &mut Vec<String>, scope: &str)
    ensures
        views(final(scopes)@) == views(old(scopes)@).push(scope@),
{
    scopes.push(String::from_str(scope));
    assert(views(scopes@) =~= views(old(scopes)@).push(scope@));
}

/// The OAuth settings for a configuration: its redirect URI, and all scopes.
pub fn oauth_setup(usr_conf: &UserConfig) -> (o: OAuthSetup)
    ensures
        o.redirect_uri@ == usr_conf.redirect_uri@,
        views(o.scopes@) == all_scopes(),
{
    let mut scopes: Vec<String> = Vec::new();
    assert(views(scopes@) =~= Seq::<Seq<char>>::empty());
    push_scope(&mut scopes, "user-read-email");
    push_scope(&mut scopes, "user-read-private");
    push_scope(&mut scopes, "user-top-read");
    push_scope(&mut scopes, "user-read-recently-played");
    push_scope(&mut scopes, "user-follow-read");
    push_scope(&mut scopes, "user-library-read");
    push_scope(&mut scopes, "user-read-currently-playing");
    push_scope(&mut scopes, "user-read-playback-state");
    push_scope(&mut scopes, "user-read-playback-position");
    push_scope(&mut scopes, "playlist-read-collaborative");
    push_scope(&mut scopes, "playlist-read-private");
    push_scope(&mut scopes, "user-follow-modify");
    push_scope(&mut scopes, "user-library-modify");
    push_scope(&mut scopes, "user-modify-playback-state");
    push_scope(&mut scopes, "playlist-modify-public");
    push_scope(&mut scopes, "playlist-modify-private");
    push_scope(&mut scopes, "ugc-image-upload");
    assert(views(scopes@) =~= all_scopes());
    OAuthSetup { redirect_uri: usr_conf.get_redirect_uri(), scopes }
}

/// No scope is asked for twice: the scopes form a set.
pub proof fn law_scopes_distinct()
    ensures
        all_scopes().no_duplicates(),
{
    reveal_strlit("user-read-email");
    reveal_strlit("user-read-private");
    reveal_strlit("user-top-read");
    reveal_strlit("user-read-recently-played");
    reveal_strlit("user-follow-read");
    reveal_strlit("user-library-read");
    reveal_strlit("user-read-currently-playing");
    reveal_strlit("user-read-playback-state");
    reveal_strlit("user-read-playback-position");
    reveal_strlit("playlist-read-collaborative");
    reveal_strlit("playlist-read-private");
    reveal_strlit("user-follow-modify");
    reveal_strlit("user-library-modify");
    reveal_strlit("user-modify-playback-state");
    reveal_strlit("playlist-modify-public");
    reveal_strlit("playlist-modify-private");
    reveal_strlit("ugc-image-upload");
    let s = all_scopes();
    assert forall|i: int, j: int| 0 <= i < s.len() && 0 <= j < s.len() && i != j implies s[i] != s[j] by {
        if s[i] == s[j] {
            assert(s[i].len() == s[j].len());
            assert(s[i][5] == s[j][5]);
            assert(s[i][9] == s[j][9]);
            assert(s[i][14] == s[j][14]);
        }
    }
}

} // verus!
