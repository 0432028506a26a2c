use vstd::prelude::*;
use crate::url_analisada::UrlAnalisada;

verus! {

/// Para onde carregar a URL de uma atividade no webview: vídeo do YouTube
/// pede o invólucro local com iframe; as demais URLs carregam direto.
#[derive(Debug, PartialEq, Eq)]
pub enum DestinoDeCarregamento {
    Video(UrlAnalisada),
    Direto(UrlAnalisada),
}

impl Clone for DestinoDeCarregamento {
    fn clone(&self) -> (r: Self)
        ensures
            match (self, r) {
                (DestinoDeCarregamento::Video(a), DestinoDeCarregamento::Video(b)) => a@ == b@,
                (DestinoDeCarregamento::Direto(a), DestinoDeCarregamento::Direto(b)) => a@ == b@,
                _ => false,
            },
    {
        match self {
            DestinoDeCarregamento::Video(u) => DestinoDeCarregamento::Video(u.clone()),
            DestinoDeCarregamento::Direto(u) => DestinoDeCarregamento::Direto(u.clone()),
        }
    }
}

} // verus!
