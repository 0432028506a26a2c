use vstd::prelude::*;
use crate::texto::{copiar, textos_iguais};

verus! {

/// Uma URL vista como valores: o texto normalizado, o esquema, o host, o
/// caminho e os pares já decodificados da query.
pub type PartesDeUrl = (Seq<char>, Seq<char>, Option<Seq<char>>, Seq<char>, Seq<(Seq<char>, Seq<char>)>);

/// O que `url::Url::parse` devolve para o texto `bruta`, visto pelas partes
/// que a biblioteca lê: `None` se não for uma URL absoluta.
pub uninterp spec fn url_interpretada(bruta: Seq<char>) -> Option<PartesDeUrl>;

/// Uma URL já interpretada, guardada como valores simples: o que o resto da
/// biblioteca lê de uma `url::Url`.
#[derive(Debug, PartialEq, Eq)]
pub struct UrlAnalisada {
    texto: String,
    esquema: String,
    host: Option<String>,
    caminho: String,
    pares: Vec<(String, String)>,
}

/// Visão dos pares da query.
pub open spec fn visao_dos_pares(pares: Seq<(String, String)>) -> Seq<(Seq<char>, Seq<char>)> {
    pares.map_values(|p: (String, String)| (p.0@, p.1@))
}

impl View for UrlAnalisada {
    type V = PartesDeUrl;

    closed spec fn view(&self) -> PartesDeUrl {
        (
            self.texto@,
            self.esquema@,
            match self.host {
                Some(h) => Some(h@),
                None => None,
            },
            self.caminho@,
            visao_dos_pares(self.pares@),
        )
    }
}

/// `url::Url::parse`, com a URL convertida nas partes que a biblioteca lê:
/// `as_str`, `scheme`, `host_str`, `path` e `query_pairs`. O contrato só
/// afirma que o resultado é função do texto de entrada (o nome
/// `url_interpretada`); as regras de interpretação do padrão WHATWG não são
/// escritas aqui.
#[verifier::external_body]
fn interpretar_url(bruta: &str) -> (r: Option<UrlAnalisada>)
    ensures
        match r {
            Some(u) => url_interpretada(bruta@) == Some(u@),
            None => url_interpretada(bruta@) is None,
        },
{
    let url = url::Url::parse(bruta).ok()?;
    Some(UrlAnalisada {
        texto: url.as_str().to_string(),
        esquema: url.scheme().to_string(),
        host: url.host_str().map(|h| h.to_string()),
        caminho: url.path().to_string(),
        pares: url.query_pairs().map(|(k, v)| (k.into_owned(), v.into_owned())).collect(),
    })
}

/// Posição do primeiro `sep` em `s`, se houver.
pub open spec fn primeira_ocorrencia(s: Seq<char>, sep: char) -> Option<int>
    decreases s.len(),
{
    if s.len() == 0 {
        None
    } else if s[0] == sep {
        Some(0)
    } else {
        match primeira_ocorrencia(s.drop_first(), sep) {
            Some(i) => Some(i + 1),
            None => None,
        }
    }
}

/// `s` partido em cada `sep`, como `str::split`: sem separador dá o texto
/// inteiro; separadores seguidos ou nas pontas dão pedaços vazios.
pub open spec fn separar(s: Seq<char>, sep: char) -> Seq<Seq<char>>
    decreases s.len(),
{
    match primeira_ocorrencia(s, sep) {
        None => seq![s],
        Some(i) => if 0 <= i < s.len() {
            seq![s.take(i)] + separar(s.skip(i + 1), sep)
        } else {
            seq![s]
        },
    }
}

/// Segmentos do caminho, como `url::Url::path_segments`: o caminho sem a
/// barra inicial, partido em cada `/`; `None` se o caminho não começa com `/`.
pub open spec fn segmentos_do_caminho(caminho: Seq<char>) -> Option<Seq<Seq<char>>> {
    if caminho.len() > 0 && caminho[0] == '/' {
        Some(separar(caminho.drop_first(), '/'))
    } else {
        None
    }
}

/// Valor do primeiro par da query com a chave `chave`, se houver.
pub open spec fn valor_da_query(pares: Seq<(Seq<char>, Seq<char>)>, chave: Seq<char>) -> Option<Seq<char>>
    decreases pares.len(),
{
    if pares.len() == 0 {
        None
    } else if pares[0].0 == chave {
        Some(pares[0].1)
    } else {
        valor_da_query(pares.drop_first(), chave)
    }
}

/// A primeira ocorrência está dentro do texto, é o separador, e nada antes dela é.
pub proof fn primeira_ocorrencia_limites(s: Seq<char>, sep: char)
    ensures
        match primeira_ocorrencia(s, sep) {
            Some(i) => 0 <= i < s.len() && s[i] == sep && forall|k: int| 0 <= k < i ==> s[k] != sep,
            None => forall|k: int| 0 <= k < s.len() ==> s[k] != sep,
        },
    decreases s.len(),
{
    if s.len() > 0 {
        primeira_ocorrencia_limites(s.drop_first(), sep);
        if s[0] != sep {
            match primeira_ocorrencia(s.drop_first(), sep) {
                Some(i) => {
                    assert forall|k: int| 0 <= k < i + 1 implies s[k] != sep by {
                        if k > 0 {
                            assert(s[k] == s.drop_first()[k - 1]);
                        }
                    }
                },
                None => {
                    assert forall|k: int| 0 <= k < s.len() implies s[k] != sep by {
                        if k > 0 {
                            assert(s[k] == s.drop_first()[k - 1]);
                        }
                    }
                },
            }
        }
    }
}

/// Sem separador antes de `j`, a primeira ocorrência é a do resto a partir de `j`, deslocada.
pub proof fn primeira_ocorrencia_apos(s: Seq<char>, sep: char, j: int)
    requires
        0 <= j <= s.len(),
        forall|k: int| 0 <= k < j ==> s[k] != sep,
    ensures
        primeira_ocorrencia(s, sep) == (match primeira_ocorrencia(s.skip(j), sep) {
            Some(i) => Some(i + j),
            None => None::<int>,
        }),
    decreases j,
{
    if j > 0 {
        assert(s.drop_first().skip(j - 1) =~= s.skip(j));
        assert forall|k: int| 0 <= k < j - 1 implies s.drop_first()[k] != sep by {
            assert(s.drop_first()[k] == s[k + 1]);
        }
        primeira_ocorrencia_apos(s.drop_first(), sep, j - 1);
    } else {
        assert(s.skip(0) =~= s);
    }
}

impl Clone for UrlAnalisada {
    fn clone(&self) -> (r: Self)
        ensures
            r@ == self@,
    {
        let mut pares: Vec<(String, String)> = Vec::new();
        let mut i: usize = 0;
        while i < self.pares.len()
            invariant
                i <= self.pares@.len(),
                pares@.len() == i,
                visao_dos_pares(pares@) == visao_dos_pares(self.pares@).take(i as int),
            decreases self.pares@.len() - i,
        {
            let par = (self.pares[i].0.clone(), self.pares[i].1.clone());
            let ghost antes = pares@;
            pares.push(par);
            proof {
                assert(pares@[i as int] == par);
                assert(par.0@ == self.pares@[i as int].0@);
                assert(par.1@ == self.pares@[i as int].1@);
            }
            i = i + 1;
            assert(visao_dos_pares(pares@) =~= visao_dos_pares(self.pares@).take(i as int));
        }
        assert(visao_dos_pares(self.pares@).take(i as int) =~= visao_dos_pares(self.pares@));
        let host = match &self.host {
            Some(h) => Some(h.clone()),
            None => None,
        };
        Self {
            texto: self.texto.clone(),
            esquema: self.esquema.clone(),
            host,
            caminho: self.caminho.clone(),
            pares,
        }
    }
}

impl UrlAnalisada {
    /// Uma URL dada pelas suas partes: o texto, o esquema, o host, o caminho
    /// e os pares da query.
    pub fn de_partes(
        texto: String,
        esquema: String,
        host: Option<String>,
        caminho: String,
        pares: Vec<(String, String)>,
    ) -> (r: Self)
        ensures
            r@ == (texto@, esquema@, match host {
                Some(h) => Some(h@),
                None => None::<Seq<char>>,
            }, caminho@, visao_dos_pares(pares@)),
    {
        UrlAnalisada { texto, esquema, host, caminho, pares }
    }

    /// Interpreta `bruta` como URL absoluta, com `url::Url::parse`.
    pub fn interpretar(bruta: &str) -> (r: Option<Self>)
        ensures
            match r {
                Some(u) => url_interpretada(bruta@) == Some(u@),
                None => url_interpretada(bruta@) is None,
            },
    {
        interpretar_url(bruta)
    }

    /// O texto normalizado da URL.
    pub fn como_str(&self) -> (r: &str)
        ensures
            r@ == self@.0,
    {
        self.texto.as_str()
    }

    /// O esquema, sem `:`.
    pub fn esquema(&self) -> (r: &str)
        ensures
            r@ == self@.1,
    {
        self.esquema.as_str()
    }

    /// O host, se a URL tiver um.
    pub fn host_str(&self) -> (r: Option<&str>)
        ensures
            match self@.2 {
                Some(h) => r is Some && r->0@ == h,
                None => r is None,
            },
    {
        match &self.host {
            Some(h) => Some(h.as_str()),
            None => None,
        }
    }

    /// Segmentos do caminho (sem a barra inicial, partido em `/`).
    pub fn segmentos_do_caminho(&self) -> (r: Option<Vec<String>>)
        ensures
            match segmentos_do_caminho(self@.3) {
                Some(segs) => r is Some && r->0@.map_values(|s: String| s@) == segs,
                None => r is None,
            },
    {
        let caminho = self.caminho.as_str();
        let n = caminho.unicode_len();
        if n == 0 || caminho.get_char(0) != '/' {
            return None;
        }
        let ghost resto = caminho@.drop_first();
        let mut segs: Vec<String> = Vec::new();
        let mut inicio: usize = 1;
        let mut i: usize = 1;
        while i < n
            invariant
                n == caminho@.len(),
                1 <= inicio <= i <= n,
                resto == caminho@.drop_first(),
                forall|k: int| inicio <= k < i ==> caminho@[k] != '/',
                separar(resto, '/') == segs@.map_values(|s: String| s@) + separar(
                    caminho@.skip(inicio as int),
                    '/',
                ),
            decreases n - i,
        {
            if caminho.get_char(i) == '/' {
                let pedaco = copiar(caminho.substring_char(inicio, i));
                proof {
                    let t = caminho@.skip(inicio as int);
                    let j = (i - inicio) as int;
                    assert forall|k: int| 0 <= k < j implies t[k] != '/' by {
                        assert(t[k] == caminho@[k + inicio]);
                    }
                    assert(t[j] == '/');
                    primeira_ocorrencia_apos(t, '/', j);
                    assert(t.skip(j)[0] == '/');
                    assert(primeira_ocorrencia(t.skip(j), '/') == Some(0int));
                    assert(primeira_ocorrencia(t, '/') == Some(j));
                    assert(t.take(j) =~= caminho@.subrange(inicio as int, i as int));
                    assert(t.skip(j + 1) =~= caminho@.skip(i + 1));
                    assert(separar(t, '/') == seq![t.take(j)] + separar(t.skip(j + 1), '/'));
                }
                let ghost antes = segs@.map_values(|s: String| s@);
                segs.push(pedaco);
                assert(segs@.map_values(|s: String| s@) =~= antes.push(pedaco@));
                assert(antes.push(pedaco@) + separar(caminho@.skip(i + 1), '/') =~= antes + (
                seq![pedaco@] + separar(caminho@.skip(i + 1), '/')));
                inicio = i + 1;
            }
            i = i + 1;
        }
        let ultimo = copiar(caminho.substring_char(inicio, n));
        proof {
            let t = caminho@.skip(inicio as int);
            assert forall|k: int| 0 <= k < t.len() implies t[k] != '/' by {
                assert(t[k] == caminho@[k + inicio]);
            }
            primeira_ocorrencia_limites(t, '/');
            if let Some(j) = primeira_ocorrencia(t, '/') {
                assert(t[j] != '/');
            }
            assert(separar(t, '/') == seq![t]);
            assert(t =~= caminho@.subrange(inicio as int, n as int));
        }
        let ghost antes = segs@.map_values(|s: String| s@);
        segs.push(ultimo);
        assert(segs@.map_values(|s: String| s@) =~= antes.push(ultimo@));
        assert(antes.push(ultimo@) =~= antes + seq![ultimo@]);
        Some(segs)
    }

    /// Valor do primeiro par da query com a chave `chave`.
    pub fn valor_da_query(&self, chave: &str) -> (r: Option<&str>)
        ensures
            match valor_da_query(self@.4, chave@) {
                Some(v) => r is Some && r->0@ == v,
                None => r is None,
            },
    {
        let n = self.pares.len();
        let mut i: usize = 0;
        assert(visao_dos_pares(self.pares@).skip(0) =~= visao_dos_pares(self.pares@));
        while i < n
            invariant
                n == self.pares@.len(),
                i <= n,
                valor_da_query(self@.4, chave@) == valor_da_query(
                    visao_dos_pares(self.pares@).skip(i as int),
                    chave@,
                ),
            decreases n - i,
        {
            let par = &self.pares[i];
            proof {
                let v = visao_dos_pares(self.pares@).skip(i as int);
                assert(v[0] == (par.0@, par.1@));
                assert(v.drop_first() =~= visao_dos_pares(self.pares@).skip(i + 1));
            }
            if textos_iguais(par.0.as_str(), chave) {
                return Some(par.1.as_str());
            }
            i = i + 1;
        }
        None
    }
}

} // verus!
