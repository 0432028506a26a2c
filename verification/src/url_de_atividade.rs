use vstd::prelude::*;
use crate::destino_de_carregamento::DestinoDeCarregamento;
use crate::texto::{copiar, textos_iguais};
use crate::url_analisada::{url_interpretada, PartesDeUrl, UrlAnalisada};
use crate::video_incorporado::{host_sem_www, sem_www, url_de_embed, url_incorporada};

verus! {

/// Texto rejeitado como URL de atividade.
#[derive(Debug, PartialEq, Eq)]
pub enum UrlDeAtividadeInvalida {
    NaoEUmaUrl { recebido: String },
    EsquemaNaoPermitido { esquema: String },
}

impl UrlDeAtividadeInvalida {
    /// Mensagem legível do erro, nomeando o texto ou o esquema recebido.
    pub fn mensagem(&self) -> (r: String)
        ensures
            match self {
                UrlDeAtividadeInvalida::NaoEUmaUrl { recebido } => r@
                    == "url de atividade invalida: '"@ + recebido@ + "' nao e uma url"@,
                UrlDeAtividadeInvalida::EsquemaNaoPermitido { esquema } => r@
                    == "esquema de url nao permitido: '"@ + esquema@
                    + "', esperado http ou https"@,
            },
    {
        match self {
            UrlDeAtividadeInvalida::NaoEUmaUrl { recebido } => {
                let mut s = String::from_str("url de atividade invalida: '");
                s.append(recebido.as_str());
                s.append("' nao e uma url");
                s
            },
            UrlDeAtividadeInvalida::EsquemaNaoPermitido { esquema } => {
                let mut s = String::from_str("esquema de url nao permitido: '");
                s.append(esquema.as_str());
                s.append("', esperado http ou https");
                s
            },
        }
    }
}

/// Só `http` e `https` são esquemas aceitos numa URL de atividade.
pub open spec fn esquema_permitido(esquema: Seq<char>) -> bool {
    esquema == "http"@ || esquema == "https"@
}

/// URL de uma atividade de pausa: uma URL absoluta com esquema `http` ou
/// `https`.
#[derive(Debug, PartialEq, Eq)]
pub struct UrlDeAtividade(UrlAnalisada);

impl View for UrlDeAtividade {
    type V = PartesDeUrl;

    closed spec fn view(&self) -> PartesDeUrl {
        self.0@
    }
}

impl Clone for UrlDeAtividade {
    fn clone(&self) -> (r: Self)
        ensures
            r@ == self@,
    {
        proof {
            use_type_invariant(self);
        }
        UrlDeAtividade(self.0.clone())
    }
}

impl UrlDeAtividade {
    #[verifier::type_invariant]
    spec fn so_http(self) -> bool {
        esquema_permitido(self.0@.1)
    }

    /// Toda URL de atividade tem esquema `http` ou `https`.
    pub fn esquema_e_http(&self) -> (r: bool)
        ensures
            r,
            esquema_permitido(self@.1),
    {
        proof {
            use_type_invariant(self);
        }
        true
    }

    pub fn nova(bruta: &str) -> (r: Result<Self, UrlDeAtividadeInvalida>)
        ensures
            match url_interpretada(bruta@) {
                None => r matches Err(UrlDeAtividadeInvalida::NaoEUmaUrl { recebido })
                    && recebido@ == bruta@,
                Some(p) => if esquema_permitido(p.1) {
                    r matches Ok(u) && u@ == p
                } else {
                    r matches Err(UrlDeAtividadeInvalida::EsquemaNaoPermitido { esquema })
                        && esquema@ == p.1
                },
            },
    {
        match UrlAnalisada::interpretar(bruta) {
            Some(url) => Self::de_url(url),
            None => Err(UrlDeAtividadeInvalida::NaoEUmaUrl { recebido: copiar(bruta) }),
        }
    }

    /// Aceita uma URL já interpretada se o esquema for `http` ou `https`;
    /// senão recusa, nomeando o esquema.
    pub fn de_url(url: UrlAnalisada) -> (r: Result<Self, UrlDeAtividadeInvalida>)
        ensures
            esquema_permitido(url@.1) ==> (r matches Ok(u) && u@ == url@),
            !esquema_permitido(url@.1) ==> (r matches Err(UrlDeAtividadeInvalida::EsquemaNaoPermitido { esquema })
                && esquema@ == url@.1),
    {
        let esquema = url.esquema();
        if !textos_iguais(esquema, "http") && !textos_iguais(esquema, "https") {
            return Err(UrlDeAtividadeInvalida::EsquemaNaoPermitido { esquema: copiar(esquema) });
        }
        Ok(Self(url))
    }

    pub fn como_str(&self) -> (r: &str)
        ensures
            r@ == self@.0,
    {
        self.0.como_str()
    }

    /// A URL já validada.
    pub fn url(&self) -> (r: &UrlAnalisada)
        ensures
            r@ == self@,
    {
        &self.0
    }

    /// Hostname sem o prefixo `www.`.
    pub fn hostname_sem_www(&self) -> (r: Option<&str>)
        ensures
            match self@.2 {
                Some(h) => r is Some && r->0@ == sem_www(h),
                None => r is None,
            },
    {
        match self.0.host_str() {
            Some(h) => Some(host_sem_www(h)),
            None => None,
        }
    }

    /// Vídeo do YouTube/YouTube Music vira `Video` com a URL de embed; as
    /// demais URLs viram `Direto`, carregando como estão.
    pub fn destino_de_carregamento(&self) -> (r: DestinoDeCarregamento)
        ensures
            match url_de_embed(self@) {
                Some(e) => r matches DestinoDeCarregamento::Video(v) && v@ == e,
                None => r matches DestinoDeCarregamento::Direto(d) && d@ == self@,
            },
    {
        match url_incorporada(&self.0) {
            Some(embed) => DestinoDeCarregamento::Video(embed),
            None => DestinoDeCarregamento::Direto(self.0.clone()),
        }
    }
}

} // verus!
