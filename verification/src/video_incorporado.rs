use vstd::prelude::*;
use crate::texto::{sem_prefixo, textos_iguais};
use crate::url_analisada::{segmentos_do_caminho, url_interpretada, valor_da_query, PartesDeUrl, UrlAnalisada};

verus! {

/// O host sem o prefixo `www.`, se tiver.
pub open spec fn sem_www(host: Seq<char>) -> Seq<char> {
    if "www."@.is_prefix_of(host) {
        host.skip("www."@.len() as int)
    } else {
        host
    }
}

/// O valor não vazio do parâmetro `v` da query, se houver.
pub open spec fn id_da_query_v(u: PartesDeUrl) -> Option<Seq<char>> {
    match valor_da_query(u.4, "v"@) {
        Some(v) => if v.len() > 0 { Some(v) } else { None },
        None => None,
    }
}

/// Identificador de vídeo num endereço do `youtube.com`: o `v` da query em
/// `/watch`, o segmento seguinte em `/shorts/`.
pub open spec fn id_do_youtube(u: PartesDeUrl) -> Option<Seq<char>> {
    match segmentos_do_caminho(u.3) {
        Some(segs) => if segs.len() == 0 {
            None
        } else if segs[0] == "watch"@ {
            id_da_query_v(u)
        } else if segs[0] == "shorts"@ {
            if segs.len() > 1 { Some(segs[1]) } else { None }
        } else {
            None
        },
        None => None,
    }
}

/// Identificador candidato do vídeo, conforme o host (sem `www.`):
/// `youtu.be` usa o primeiro segmento do caminho; `youtube.com` e
/// `m.youtube.com` usam `/watch?v=` ou `/shorts/`; `music.youtube.com` usa
/// `?v=`. Qualquer outro host não tem vídeo.
pub open spec fn id_de_video(u: PartesDeUrl) -> Option<Seq<char>> {
    match u.2 {
        None => None,
        Some(bruto) => {
            let host = sem_www(bruto);
            if host == "youtu.be"@ {
                match segmentos_do_caminho(u.3) {
                    Some(segs) => if segs.len() > 0 { Some(segs[0]) } else { None },
                    None => None,
                }
            } else if host == "youtube.com"@ || host == "m.youtube.com"@ {
                id_do_youtube(u)
            } else if host == "music.youtube.com"@ {
                id_da_query_v(u)
            } else {
                None
            }
        },
    }
}

/// A URL de embed equivalente: `https://www.youtube.com/embed/<id>`
/// interpretada, quando há um identificador não vazio.
pub open spec fn url_de_embed(u: PartesDeUrl) -> Option<PartesDeUrl> {
    match id_de_video(u) {
        Some(id) => if id.len() > 0 {
            url_interpretada("https://www.youtube.com/embed/"@ + id)
        } else {
            None
        },
        None => None,
    }
}

/// O host sem o prefixo `www.`, se tiver.
pub fn host_sem_www(host: &str) -> (r: &str)
    ensures
        r@ == sem_www(host@),
{
    match sem_prefixo(host, "www.") {
        Some(resto) => resto,
        None => host,
    }
}

fn id_da_query_v_exec(url: &UrlAnalisada) -> (r: Option<String>)
    ensures
        match id_da_query_v(url@) {
            Some(v) => r is Some && r->0@ == v,
            None => r is None,
        },
{
    match url.valor_da_query("v") {
        Some(valor) => {
            if valor.unicode_len() == 0 {
                None
            } else {
                Some(String::from_str(valor))
            }
        },
        None => None,
    }
}

fn id_do_youtube_exec(url: &UrlAnalisada) -> (r: Option<String>)
    ensures
        match id_do_youtube(url@) {
            Some(v) => r is Some && r->0@ == v,
            None => r is None,
        },
{
    let segmentos = match url.segmentos_do_caminho() {
        Some(s) => s,
        None => return None,
    };
    let ghost segs = segmentos@.map_values(|s: String| s@);
    if segmentos.len() == 0 {
        return None;
    }
    assert(segs[0] == segmentos@[0]@);
    if textos_iguais(segmentos[0].as_str(), "watch") {
        id_da_query_v_exec(url)
    } else if textos_iguais(segmentos[0].as_str(), "shorts") {
        if segmentos.len() > 1 {
            assert(segs[1] == segmentos@[1]@);
            Some(segmentos[1].clone())
        } else {
            None
        }
    } else {
        None
    }
}

fn id_de_video_exec(url: &UrlAnalisada) -> (r: Option<String>)
    ensures
        match id_de_video(url@) {
            Some(v) => r is Some && r->0@ == v,
            None => r is None,
        },
{
    let host_bruto = match url.host_str() {
        Some(h) => h,
        None => return None,
    };
    let host = host_sem_www(host_bruto);
    if textos_iguais(host, "youtu.be") {
        match url.segmentos_do_caminho() {
            Some(segmentos) => {
                if segmentos.len() > 0 {
                    assert(segmentos@.map_values(|s: String| s@)[0] == segmentos@[0]@);
                    Some(segmentos[0].clone())
                } else {
                    None
                }
            },
            None => None,
        }
    } else if textos_iguais(host, "youtube.com") || textos_iguais(host, "m.youtube.com") {
        id_do_youtube_exec(url)
    } else if textos_iguais(host, "music.youtube.com") {
        id_da_query_v_exec(url)
    } else {
        None
    }
}

/// Se `url` aponta para um vídeo do YouTube ou YouTube Music, a URL de
/// embed equivalente; `None` para qualquer outra URL.
pub fn url_incorporada(url: &UrlAnalisada) -> (r: Option<UrlAnalisada>)
    ensures
        match r {
            Some(e) => url_de_embed(url@) == Some(e@),
            None => url_de_embed(url@) is None,
        },
{
    match id_de_video_exec(url) {
        Some(id) => embed_youtube(id.as_str()),
        None => None,
    }
}

fn embed_youtube(id: &str) -> (r: Option<UrlAnalisada>)
    ensures
        id@.len() == 0 ==> r is None,
        id@.len() > 0 ==> match r {
            Some(e) => url_interpretada("https://www.youtube.com/embed/"@ + id@) == Some(e@),
            None => url_interpretada("https://www.youtube.com/embed/"@ + id@) is None,
        },
{
    if id.unicode_len() == 0 {
        return None;
    }
    let endereco = String::from_str("https://www.youtube.com/embed/").concat(id);
    UrlAnalisada::interpretar(endereco.as_str())
}

proof fn hosts_do_youtube_distintos()
    ensures
        "youtube.com"@ != "youtu.be"@,
        "m.youtube.com"@ != "youtu.be"@,
        "m.youtube.com"@ != "youtube.com"@,
        !"www."@.is_prefix_of("youtube.com"@),
        sem_www("youtube.com"@) == "youtube.com"@,
{
    reveal_strlit("youtube.com");
    reveal_strlit("youtu.be");
    reveal_strlit("m.youtube.com");
    reveal_strlit("www.");
    assert("youtube.com"@.len() != "youtu.be"@.len());
    assert("m.youtube.com"@.len() != "youtu.be"@.len());
    assert("m.youtube.com"@.len() != "youtube.com"@.len());
    assert("youtube.com"@[0] != "www."@[0]);
}

/// Um endereço do `m.youtube.com` (com ou sem `www.`) dá o mesmo embed que o
/// mesmo endereço no `youtube.com`: a versão móvel não é outro site.
pub proof fn youtube_movel_da_o_mesmo_embed(u: PartesDeUrl, host: Seq<char>)
    requires
        u.2 == Some(host),
        sem_www(host) == "m.youtube.com"@,
    ensures
        url_de_embed(u) == url_de_embed((u.0, u.1, Some("youtube.com"@), u.3, u.4)),
{
    hosts_do_youtube_distintos();
}

/// Um vídeo curto, `/shorts/<id>` com `id` não vazio, em `youtube.com` ou
/// `m.youtube.com` (com ou sem `www.`), vira o embed `https://www.youtube.com/embed/<id>`.
pub proof fn shorts_vira_embed(u: PartesDeUrl, host: Seq<char>, id: Seq<char>)
    requires
        u.2 == Some(host),
        sem_www(host) == "youtube.com"@ || sem_www(host) == "m.youtube.com"@,
        segmentos_do_caminho(u.3) matches Some(segs) && segs.len() >= 2 && segs[0] == "shorts"@ && segs[1] == id,
        id.len() > 0,
    ensures
        url_de_embed(u) == url_interpretada("https://www.youtube.com/embed/"@ + id),
{
    hosts_do_youtube_distintos();
    reveal_strlit("shorts");
    reveal_strlit("watch");
    assert("shorts"@.len() != "watch"@.len());
}

} // verus!
