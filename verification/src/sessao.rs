use vstd::prelude::*;
use crate::atividade::{atividade_vazia, Atividade, AtividadeView};
use crate::tempo::Duracao;

verus! {

/// Uma sessão do plano individual vista como valores.
pub struct SessaoView {
    pub foco: int,
    pub pausa: int,
    pub atividade: AtividadeView,
}

/// Uma sessão nova: as durações dadas e a atividade vazia.
pub open spec fn sessao_nova(foco: int, pausa: int) -> SessaoView {
    SessaoView { foco, pausa, atividade: atividade_vazia() }
}

/// Durações de foco e pausa e atividade de uma sessão do plano individual.
#[derive(Debug, PartialEq, Eq)]
pub struct Sessao {
    foco: Duracao,
    pausa: Duracao,
    atividade: Atividade,
}

impl View for Sessao {
    type V = SessaoView;

    closed spec fn view(&self) -> SessaoView {
        SessaoView { foco: self.foco@, pausa: self.pausa@, atividade: self.atividade@ }
    }
}

impl Clone for Sessao {
    fn clone(&self) -> (r: Self)
        ensures
            r@ == self@,
    {
        Self { foco: self.foco, pausa: self.pausa, atividade: self.atividade.clone() }
    }
}

impl Sessao {
    pub fn nova(foco: Duracao, pausa: Duracao) -> (r: Self)
        ensures
            r@ == sessao_nova(foco@, pausa@),
    {
        Self { foco, pausa, atividade: Atividade::vazia() }
    }

    pub fn foco(&self) -> (r: Duracao)
        ensures
            r@ == self@.foco,
    {
        self.foco
    }

    pub fn pausa(&self) -> (r: Duracao)
        ensures
            r@ == self@.pausa,
    {
        self.pausa
    }

    pub fn atividade(&self) -> (r: &Atividade)
        ensures
            r@ == self@.atividade,
    {
        &self.atividade
    }

    pub fn com_foco(self, nova: Duracao) -> (r: Self)
        ensures
            r@ == (SessaoView { foco: nova@, ..self@ }),
    {
        Self { foco: nova, ..self }
    }

    pub fn com_pausa(self, nova: Duracao) -> (r: Self)
        ensures
            r@ == (SessaoView { pausa: nova@, ..self@ }),
    {
        Self { pausa: nova, ..self }
    }

    pub fn com_atividade(self, nova: Atividade) -> (r: Self)
        ensures
            r@ == (SessaoView { atividade: nova@, ..self@ }),
    {
        Self { atividade: nova, ..self }
    }
}

} // verus!
