use vstd::prelude::*;
use crate::url_analisada::PartesDeUrl;
use crate::url_de_atividade::UrlDeAtividade;
use crate::video_incorporado::sem_www;

verus! {

/// Uma atividade vista como valores.
pub struct AtividadeView {
    pub nome: Option<Seq<char>>,
    pub url: Option<PartesDeUrl>,
}

/// A atividade sem nome e sem URL.
pub open spec fn atividade_vazia() -> AtividadeView {
    AtividadeView { nome: None, url: None }
}

/// Rótulo exibido: o nome; na falta dele, o hostname sem `www.`; na falta
/// dos dois, `atividade`.
pub open spec fn rotulo(a: AtividadeView) -> Seq<char> {
    match a.nome {
        Some(n) => n,
        None => match a.url {
            Some(u) => match u.2 {
                Some(h) => sem_www(h),
                None => "atividade"@,
            },
            None => "atividade"@,
        },
    }
}

/// Atividade de pausa: nome e URL independentemente opcionais.
#[derive(Debug, PartialEq, Eq)]
pub struct Atividade {
    nome: Option<String>,
    url: Option<UrlDeAtividade>,
}

impl View for Atividade {
    type V = AtividadeView;

    closed spec fn view(&self) -> AtividadeView {
        AtividadeView {
            nome: match self.nome {
                Some(n) => Some(n@),
                None => None,
            },
            url: match self.url {
                Some(u) => Some(u@),
                None => None,
            },
        }
    }
}

impl Clone for Atividade {
    fn clone(&self) -> (r: Self)
        ensures
            r@ == self@,
    {
        let nome = match &self.nome {
            Some(n) => Some(n.clone()),
            None => None,
        };
        let url = match &self.url {
            Some(u) => Some(u.clone()),
            None => None,
        };
        Self { nome, url }
    }
}

impl Default for Atividade {
    fn default() -> (r: Self)
        ensures
            r@ == atividade_vazia(),
    {
        Self { nome: None, url: None }
    }
}

impl Atividade {
    pub fn vazia() -> (r: Self)
        ensures
            r@ == atividade_vazia(),
    {
        Self { nome: None, url: None }
    }

    pub fn nova(nome: Option<String>, url: Option<UrlDeAtividade>) -> (r: Self)
        ensures
            r@.nome == (match nome {
                Some(n) => Some(n@),
                None => None::<Seq<char>>,
            }),
            r@.url == (match url {
                Some(u) => Some(u@),
                None => None::<PartesDeUrl>,
            }),
    {
        Self { nome, url }
    }

    pub fn nome(&self) -> (r: Option<&str>)
        ensures
            match self@.nome {
                Some(n) => r is Some && r->0@ == n,
                None => r is None,
            },
    {
        match &self.nome {
            Some(n) => Some(n.as_str()),
            None => None,
        }
    }

    pub fn url(&self) -> (r: Option<&UrlDeAtividade>)
        ensures
            match self@.url {
                Some(u) => r is Some && r->0@ == u,
                None => r is None,
            },
    {
        match &self.url {
            Some(u) => Some(u),
            None => None,
        }
    }

    /// Há URL aplicável: condição de entrada em bloqueio numa Pausa.
    pub fn tem_url_aplicavel(&self) -> (r: bool)
        ensures
            r == self@.url is Some,
    {
        self.url.is_some()
    }

    pub fn rotulo(&self) -> (r: String)
        ensures
            r@ == rotulo(self@),
    {
        match &self.nome {
            Some(n) => n.clone(),
            None => {
                let host = match &self.url {
                    Some(u) => u.hostname_sem_www(),
                    None => None,
                };
                match host {
                    Some(h) => String::from_str(h),
                    None => String::from_str("atividade"),
                }
            },
        }
    }
}

} // verus!
