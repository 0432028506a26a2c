use vstd::prelude::*;
use crate::atividade::{rotulo, Atividade, AtividadeView};
use crate::ciclo_em_execucao::{duracao_da_etapa, CicloEmExecucao};
use crate::contadores_do_dia::ContadoresDoDia;
use crate::plano_do_ciclo::{total_do_plano, PlanoDoCiclo};
use crate::sessao::{Sessao, SessaoView};
use crate::tempo::Instante;
use crate::timer::{correndo, leitura_cabe, restante, TimerView};

verus! {

/// Etapa como a interface a vê.
#[derive(Debug, Clone, Copy, PartialEq, Eq, Structural)]
pub enum Etapa {
    Foco,
    Pausa,
}

/// A etapa da interface que corresponde à etapa do domínio.
pub open spec fn etapa_da_interface(e: crate::etapa::Etapa) -> Etapa {
    match e {
        crate::etapa::Etapa::Foco => Etapa::Foco,
        crate::etapa::Etapa::Pausa => Etapa::Pausa,
    }
}

impl From<crate::etapa::Etapa> for Etapa {
    fn from(etapa: crate::etapa::Etapa) -> (r: Self) {
        match etapa {
            crate::etapa::Etapa::Foco => Etapa::Foco,
            crate::etapa::Etapa::Pausa => Etapa::Pausa,
        }
    }
}

impl vstd::std_specs::convert::FromSpecImpl<crate::etapa::Etapa> for Etapa {
    open spec fn obeys_from_spec() -> bool {
        true
    }

    open spec fn from_spec(v: crate::etapa::Etapa) -> Self {
        etapa_da_interface(v)
    }
}

/// Modo de duração como a interface o vê.
#[derive(Debug, Clone, Copy, PartialEq, Eq, Structural)]
pub enum ModoDeDuracao {
    Global,
    Individual,
}

/// O modo da interface que corresponde ao modo do domínio.
pub open spec fn modo_da_interface(m: crate::modo_de_duracao::ModoDeDuracao) -> ModoDeDuracao {
    match m {
        crate::modo_de_duracao::ModoDeDuracao::Global => ModoDeDuracao::Global,
        crate::modo_de_duracao::ModoDeDuracao::Individual => ModoDeDuracao::Individual,
    }
}

/// O modo do domínio que corresponde ao modo da interface.
pub open spec fn modo_do_dominio(m: ModoDeDuracao) -> crate::modo_de_duracao::ModoDeDuracao {
    match m {
        ModoDeDuracao::Global => crate::modo_de_duracao::ModoDeDuracao::Global,
        ModoDeDuracao::Individual => crate::modo_de_duracao::ModoDeDuracao::Individual,
    }
}

impl From<crate::modo_de_duracao::ModoDeDuracao> for ModoDeDuracao {
    fn from(modo: crate::modo_de_duracao::ModoDeDuracao) -> (r: Self) {
        match modo {
            crate::modo_de_duracao::ModoDeDuracao::Global => ModoDeDuracao::Global,
            crate::modo_de_duracao::ModoDeDuracao::Individual => ModoDeDuracao::Individual,
        }
    }
}

impl vstd::std_specs::convert::FromSpecImpl<crate::modo_de_duracao::ModoDeDuracao> for ModoDeDuracao {
    open spec fn obeys_from_spec() -> bool {
        true
    }

    open spec fn from_spec(v: crate::modo_de_duracao::ModoDeDuracao) -> Self {
        modo_da_interface(v)
    }
}

impl From<ModoDeDuracao> for crate::modo_de_duracao::ModoDeDuracao {
    fn from(modo: ModoDeDuracao) -> (r: Self) {
        match modo {
            ModoDeDuracao::Global => crate::modo_de_duracao::ModoDeDuracao::Global,
            ModoDeDuracao::Individual => crate::modo_de_duracao::ModoDeDuracao::Individual,
        }
    }
}

impl vstd::std_specs::convert::FromSpecImpl<ModoDeDuracao> for crate::modo_de_duracao::ModoDeDuracao {
    open spec fn obeys_from_spec() -> bool {
        true
    }

    open spec fn from_spec(v: ModoDeDuracao) -> Self {
        modo_do_dominio(v)
    }
}

/// Converter o modo para a interface e de volta dá o mesmo modo.
pub proof fn modo_ida_e_volta(m: crate::modo_de_duracao::ModoDeDuracao, n: ModoDeDuracao)
    ensures
        modo_do_dominio(modo_da_interface(m)) == m,
        modo_da_interface(modo_do_dominio(n)) == n,
{
}

/// Retrato do ciclo num instante. O prazo é absoluto: a interface deriva
/// `mm:ss` a partir dele, sem receber tick.
#[derive(Debug, Clone, Copy, PartialEq, Eq, Structural)]
pub struct EstadoDaTela {
    pub etapa: Etapa,
    pub numero_sessao: u8,
    pub total_sessoes: u8,
    pub prazo_epoca_ms: Option<i64>,
    pub restante_ms: i64,
    pub rodando: bool,
    pub duracao_total_ms: i64,
    pub iniciar_automaticamente: bool,
}

impl EstadoDaTela {
    pub fn de(ciclo: &CicloEmExecucao, agora: Instante) -> (r: Self)
        requires
            leitura_cabe(ciclo@.timer, agora@),
        ensures
            r.etapa == etapa_da_interface(ciclo@.etapa),
            r.numero_sessao == ciclo@.sessao,
            r.total_sessoes == ciclo@.total,
            match ciclo@.timer {
                TimerView::Correndo { prazo } => r.prazo_epoca_ms matches Some(p) && p == prazo,
                _ => r.prazo_epoca_ms is None,
            },
            r.restante_ms == restante(ciclo@.timer, agora@),
            r.rodando == correndo(ciclo@.timer),
            r.duracao_total_ms == duracao_da_etapa(ciclo@, ciclo@.etapa),
            r.iniciar_automaticamente == ciclo@.iniciar_automaticamente,
    {
        let prazo_epoca_ms = match ciclo.prazo() {
            Some(p) => Some(p.epoca_ms()),
            None => None,
        };
        Self {
            etapa: Etapa::from(ciclo.etapa()),
            numero_sessao: ciclo.sessao().valor(),
            total_sessoes: ciclo.total_sessoes(),
            prazo_epoca_ms,
            restante_ms: ciclo.restante_em(agora).em_ms(),
            rodando: ciclo.rodando(),
            duracao_total_ms: ciclo.duracao_da_etapa_atual().em_ms(),
            iniciar_automaticamente: ciclo.iniciar_automaticamente(),
        }
    }
}

/// Atividade de pausa para a interface: nome, URL e o rótulo já resolvido.
#[derive(Debug, PartialEq, Eq)]
pub struct AtividadeDoPlano {
    pub nome: Option<String>,
    pub url: Option<String>,
    pub rotulo: String,
}

/// A atividade da interface corresponde à atividade do domínio.
pub open spec fn atividade_corresponde(dto: AtividadeDoPlano, a: AtividadeView) -> bool {
    &&& dto.nome.is_some() == a.nome.is_some()
    &&& dto.nome matches Some(n) ==> n@ == a.nome->0
    &&& dto.url.is_some() == a.url.is_some()
    &&& dto.url matches Some(u) ==> u@ == (a.url->0).0
    &&& dto.rotulo@ == rotulo(a)
}

impl AtividadeDoPlano {
    pub fn de(atividade: &Atividade) -> (r: Self)
        ensures
            atividade_corresponde(r, atividade@),
    {
        let nome = match atividade.nome() {
            Some(n) => Some(String::from_str(n)),
            None => None,
        };
        let url = match atividade.url() {
            Some(u) => Some(String::from_str(u.como_str())),
            None => None,
        };
        Self { nome, url, rotulo: atividade.rotulo() }
    }
}

/// Durações e atividade de uma sessão do plano individual, para a interface.
#[derive(Debug, PartialEq, Eq)]
pub struct SessaoDoPlano {
    pub foco_ms: i64,
    pub pausa_ms: i64,
    pub atividade: AtividadeDoPlano,
}

/// A sessão da interface corresponde à sessão do domínio.
pub open spec fn sessao_corresponde(dto: SessaoDoPlano, s: SessaoView) -> bool {
    &&& dto.foco_ms == s.foco
    &&& dto.pausa_ms == s.pausa
    &&& atividade_corresponde(dto.atividade, s.atividade)
}

impl SessaoDoPlano {
    pub fn de(sessao: &Sessao) -> (r: Self)
        ensures
            sessao_corresponde(r, sessao@),
    {
        Self {
            foco_ms: sessao.foco().em_ms(),
            pausa_ms: sessao.pausa().em_ms(),
            atividade: AtividadeDoPlano::de(sessao.atividade()),
        }
    }
}

/// Retrato do plano de durações: modo, durações globais e o plano individual.
#[derive(Debug, PartialEq, Eq)]
pub struct EstadoDoPlano {
    pub modo: ModoDeDuracao,
    pub total_sessoes: u8,
    pub duracao_global_foco_ms: i64,
    pub duracao_global_pausa_ms: i64,
    pub atividade_global: AtividadeDoPlano,
    pub plano_individual: Vec<SessaoDoPlano>,
}

impl EstadoDoPlano {
    pub fn de(plano: &PlanoDoCiclo) -> (r: Self)
        ensures
            r.modo == modo_da_interface(plano@.modo),
            r.total_sessoes == total_do_plano(plano@),
            r.duracao_global_foco_ms == plano@.duracao_global_foco,
            r.duracao_global_pausa_ms == plano@.duracao_global_pausa,
            atividade_corresponde(r.atividade_global, plano@.atividade_global),
            r.plano_individual@.len() == plano@.plano_individual.len(),
            forall|i: int|
                0 <= i < r.plano_individual@.len() ==> sessao_corresponde(
                    #[trigger] r.plano_individual@[i],
                    plano@.plano_individual[i],
                ),
    {
        let sessoes = plano.plano_individual();
        let mut plano_individual: Vec<SessaoDoPlano> = Vec::new();
        let mut i: usize = 0;
        while i < sessoes.len()
            invariant
                i <= sessoes@.len(),
                sessoes@.len() == plano@.plano_individual.len(),
                crate::plano_do_ciclo::visao_das_sessoes(sessoes@) == plano@.plano_individual,
                plano_individual@.len() == i,
                forall|k: int|
                    0 <= k < i ==> sessao_corresponde(
                        #[trigger] plano_individual@[k],
                        plano@.plano_individual[k],
                    ),
            decreases sessoes@.len() - i,
        {
            plano_individual.push(SessaoDoPlano::de(&sessoes[i]));
            i = i + 1;
        }
        Self {
            modo: ModoDeDuracao::from(plano.modo()),
            total_sessoes: plano.total_sessoes(),
            duracao_global_foco_ms: plano.duracao_global_foco().em_ms(),
            duracao_global_pausa_ms: plano.duracao_global_pausa().em_ms(),
            atividade_global: AtividadeDoPlano::de(plano.atividade_global()),
            plano_individual,
        }
    }
}

/// Contadores do dia corrente, para o rodapé da tela principal.
#[derive(Debug, Clone, Copy, PartialEq, Eq, Structural)]
pub struct EstadoDoHistorico {
    pub sessoes_concluidas_hoje: u32,
    pub tempo_de_foco_hoje_ms: i64,
}

impl EstadoDoHistorico {
    pub fn de(dia: ContadoresDoDia) -> (r: Self)
        ensures
            r.sessoes_concluidas_hoje == dia@.sessoes_concluidas,
            r.tempo_de_foco_hoje_ms == dia@.tempo_de_foco,
    {
        Self {
            sessoes_concluidas_hoje: dia.sessoes_concluidas(),
            tempo_de_foco_hoje_ms: dia.tempo_de_foco().em_ms(),
        }
    }
}

/// Se o modo de bloqueio está ativo agora.
#[derive(Debug, Clone, Copy, PartialEq, Eq, Structural)]
pub struct EstadoDoBloqueio {
    pub ativo: bool,
}

} // verus!
