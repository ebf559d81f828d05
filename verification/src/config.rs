use vstd::prelude::*;
use crate::testo;

verus! {

/// The assistant's settings (`config.json`).
#[derive(Clone, Debug)]
pub struct Config {
    pub botname: String,
    pub wakeword: String,
    pub sleep_time: u64,
    pub deltavolume: u8,
    pub layout: String,
    pub musicplayer: String,
    pub browser: String,
    pub whisper_model: Option<String>,
    pub piper_bin: Option<String>,
    pub piper_model: Option<String>,
}

/// `base` joined with `parte` as a Unix `PathBuf::join` does: an absolute
/// `parte` replaces `base`; otherwise a `/` is put between them unless `base`
/// is empty or already ends with one.
pub open spec fn percorso_unito(base: Seq<char>, parte: Seq<char>) -> Seq<char> {
    if parte.len() > 0 && parte[0] == '/' {
        parte
    } else if base.len() == 0 || base.last() == '/' {
        base + parte
    } else {
        base + seq!['/'] + parte
    }
}

/// Joins two path pieces (Unix separator).
pub fn unisci_percorso(base: &str, parte: &str) -> (r: String)
    ensures
        r@ == percorso_unito(base@, parte@),
{
    let pv = testo::caratteri(parte);
    let bv = testo::caratteri(base);
    if pv.len() > 0 && pv[0] == '/' {
        return String::from_str(parte);
    }
    let mut r = String::from_str(base);
    if !(bv.len() == 0 || bv[bv.len() - 1] == '/') {
        r.append("/");
        proof {
            reveal_strlit("/");
        }
        assert("/"@ =~= seq!['/']);
    }
    r.append(parte);
    r
}

/// A path written from the home directory (`~` alone, or `~/…`) made
/// absolute; every other path, or any path when the home directory is
/// unknown, stays as it is.
pub open spec fn tilde_espansa(path: Seq<char>, home: Option<Seq<char>>) -> Seq<char> {
    if path == seq!['~'] && home is Some {
        home->0
    } else if testo::occorre_a(path, "~/"@, 0) && home is Some {
        percorso_unito(home->0, path.subrange(2, path.len() as int))
    } else {
        path
    }
}

pub open spec fn opzione(o: Option<&str>) -> Option<Seq<char>> {
    match o {
        Some(s) => Some(s@),
        None => None,
    }
}

/// Expands a path beginning with `~` (`~` itself or `~/…`) to the home
/// directory, so that `config.json` can stay the same on different machines
/// and users.
pub fn expand_tilde(path: &str, home: Option<&str>) -> (r: String)
    ensures
        r@ == tilde_espansa(path@, opzione(home)),
        path@ == seq!['~'] && home is Some ==> r@ == home.unwrap()@,
        !testo::occorre_a(path@, "~/"@, 0) && path@ != seq!['~'] ==> r@ == path@,
{
    let v = testo::caratteri(path);
    proof {
        reveal_strlit("~/");
    }
    let inizia = v.len() >= 2 && v[0] == '~' && v[1] == '/';
    assert(inizia == testo::occorre_a(path@, "~/"@, 0)) by {
        if v@.len() >= 2 {
            if inizia {
                assert(path@.subrange(0, 2) =~= "~/"@);
            } else {
                assert(path@.subrange(0, 2) != "~/"@) by {
                    if path@.subrange(0, 2) == "~/"@ {
                        assert(path@.subrange(0, 2)[0] == path@[0]);
                        assert(path@.subrange(0, 2)[1] == path@[1]);
                    }
                }
            }
        }
    }
    let solo = v.len() == 1 && v[0] == '~';
    assert(solo == (path@ == seq!['~'])) by {
        if path@ == seq!['~'] {
            assert(path@[0] == '~');
        }
        if solo {
            assert(path@ =~= seq!['~']);
        }
    }
    match home {
        Some(h) => {
            if solo {
                String::from_str(h)
            } else if inizia {
                let resto = testo::sottostringa(path, 2, v.len());
                unisci_percorso(h, resto.as_str())
            } else {
                String::from_str(path)
            }
        },
        None => String::from_str(path),
    }
}

pub open spec fn opzione_espansa(o: Option<String>, home: Option<Seq<char>>) -> Option<Seq<char>> {
    match o {
        Some(p) => Some(tilde_espansa(p@, home)),
        None => None,
    }
}

fn espandi_opzione(o: Option<String>, home: Option<&str>) -> (r: Option<String>)
    ensures
        match r {
            Some(p) => opzione_espansa(o, opzione(home)) == Some(p@),
            None => opzione_espansa(o, opzione(home)) is None,
        },
{
    match o {
        Some(p) => Some(expand_tilde(p.as_str(), home)),
        None => None,
    }
}

/// The settings as loaded: the model and program paths have `~` expanded;
/// every other field is kept.
pub fn espandi_config(cfg: Config, home: Option<&str>) -> (r: Config)
    ensures
        r.botname == cfg.botname,
        r.wakeword == cfg.wakeword,
        r.sleep_time == cfg.sleep_time,
        r.deltavolume == cfg.deltavolume,
        r.layout == cfg.layout,
        r.musicplayer == cfg.musicplayer,
        r.browser == cfg.browser,
        crate::esecuzione::testo_opz(r.whisper_model) == opzione_espansa(cfg.whisper_model, opzione(home)),
        crate::esecuzione::testo_opz(r.piper_bin) == opzione_espansa(cfg.piper_bin, opzione(home)),
        crate::esecuzione::testo_opz(r.piper_model) == opzione_espansa(cfg.piper_model, opzione(home)),
{
    let Config {
        botname,
        wakeword,
        sleep_time,
        deltavolume,
        layout,
        musicplayer,
        browser,
        whisper_model,
        piper_bin,
        piper_model,
    } = cfg;
    Config {
        botname,
        wakeword,
        sleep_time,
        deltavolume,
        layout,
        musicplayer,
        browser,
        whisper_model: espandi_opzione(whisper_model, home),
        piper_bin: espandi_opzione(piper_bin, home),
        piper_model: espandi_opzione(piper_model, home),
    }
}

/// Where a settings file is looked for, in order of priority: the user's
/// `~/.config/assistente-rs/<file>` (when the home directory is known), the
/// system-wide `/usr/share/assistente/config/<file>`, and `config/<file>`
/// for development.
pub open spec fn candidati(home: Option<Seq<char>>, file: Seq<char>) -> Seq<Seq<char>> {
    let sistema = percorso_unito("/usr/share/assistente/config"@, file);
    let locale = percorso_unito("config"@, file);
    match home {
        Some(h) => seq![
            percorso_unito(percorso_unito(percorso_unito(h, ".config"@), "assistente-rs"@), file),
            sistema,
            locale,
        ],
        None => seq![sistema, locale],
    }
}

/// The candidate paths of a settings file, in order of priority.
pub fn percorsi_config(home: Option<&str>, file: &str) -> (r: Vec<String>)
    ensures
        r.deep_view() == candidati(opzione(home), file@),
        r@.len() >= 2,
{
    let mut r: Vec<String> = Vec::new();
    match home {
        Some(h) => {
            let a = unisci_percorso(h, ".config");
            let b = unisci_percorso(a.as_str(), "assistente-rs");
            r.push(unisci_percorso(b.as_str(), file));
        },
        None => {},
    }
    r.push(unisci_percorso("/usr/share/assistente/config", file));
    r.push(unisci_percorso("config", file));
    assert(r.deep_view() =~= candidati(opzione(home), file@));
    r
}

/// The first candidate that exists, the last one (the development fallback)
/// being taken without looking.
pub open spec fn scelto_da(c: Seq<Seq<char>>, esiste: Seq<bool>, k: int) -> Seq<char>
    decreases c.len() - k,
{
    if k < 0 || k >= c.len() - 1 {
        c.last()
    } else if esiste[k] {
        c[k]
    } else {
        scelto_da(c, esiste, k + 1)
    }
}

/// Picks the settings file: `esiste[i]` tells whether `candidati[i]` exists.
pub fn scegli_percorso(candidati: &Vec<String>, esiste: &Vec<bool>) -> (r: String)
    requires
        candidati@.len() > 0,
        esiste@.len() == candidati@.len(),
    ensures
        r@ == scelto_da(candidati.deep_view(), esiste@, 0),
        esiste@[0] ==> r@ == candidati@[0]@,
{
    let n = candidati.len();
    let mut k: usize = 0;
    while k < n - 1
        invariant
            n == candidati@.len(),
            n > 0,
            esiste@.len() == n,
            k <= n - 1,
            scelto_da(candidati.deep_view(), esiste@, 0) == scelto_da(
                candidati.deep_view(),
                esiste@,
                k as int,
            ),
        decreases n - k,
    {
        if esiste[k] {
            assert(candidati.deep_view()[k as int] == candidati@[k as int]@);
            return candidati[k].clone();
        }
        k = k + 1;
    }
    assert(candidati.deep_view().last() == candidati@[n - 1]@);
    candidati[n - 1].clone()
}

} // verus!
