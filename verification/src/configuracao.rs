use vstd::prelude::*;
use crate::atividade::{Atividade, AtividadeView};
use crate::contadores_do_dia::{ContadoresDoDia, DiaView};
use crate::data::{datas_iguais_pela_visao, Data};
use crate::historico_diario::{ultimos_dias, visao_dos_dias, HistoricoDiario, CAPACIDADE_EM_DIAS};
use crate::modo_de_duracao::ModoDeDuracao;
use crate::plano_do_ciclo::{visao_das_sessoes, PlanoDoCiclo, PlanoView};
use crate::sessao::{Sessao, SessaoView};
use crate::tempo::Duracao;
use crate::url_analisada::{url_interpretada, PartesDeUrl};
use crate::url_de_atividade::{esquema_permitido, UrlDeAtividade};

verus! {

/// Versão do formato persistido; versão desconhecida nunca é lida como se
/// fosse a atual.
pub const VERSAO_ATUAL: u32 = 1;

/// Tudo que persiste entre execuções: o plano de durações, a flag de
/// autostart, o histórico embutido de versões antigas e a posição do widget.
pub struct Configuracao {
    pub plano: PlanoDoCiclo,
    pub iniciar_automaticamente: bool,
    pub historico: HistoricoDiario,
    pub posicao_do_widget: Option<(i32, i32)>,
}

/// Atividade como gravada no arquivo: nome e URL em texto.
pub struct AtividadePersistida {
    pub nome: Option<String>,
    pub url: Option<String>,
}

/// Sessão como gravada no arquivo.
pub struct SessaoPersistida {
    pub foco_ms: i64,
    pub pausa_ms: i64,
    pub atividade: AtividadePersistida,
}

/// Contadores de um dia como gravados no arquivo.
pub struct DiaPersistido {
    pub ano: u16,
    pub mes: u8,
    pub dia: u8,
    pub sessoes_concluidas: u32,
    pub tempo_de_foco_ms: i64,
    pub pausas_interrompidas: u32,
}

/// A configuração como gravada no arquivo, em valores simples.
pub struct ConfiguracaoPersistida {
    pub versao: u32,
    pub modo: ModoDeDuracao,
    pub duracao_global_foco_ms: i64,
    pub duracao_global_pausa_ms: i64,
    pub atividade_global: AtividadePersistida,
    pub plano_individual: Vec<SessaoPersistida>,
    pub iniciar_automaticamente: bool,
    pub historico: Vec<DiaPersistido>,
    pub posicao_do_widget: Option<(i32, i32)>,
}

/// A versão gravada não é a atual.
#[derive(Debug, PartialEq, Eq, Structural)]
pub struct VersaoDesconhecida {
    pub recebida: u32,
    pub esperada: u32,
}

/// Milissegundos gravados como duração: negativo degrada para zero.
pub open spec fn ms_degradado(ms: i64) -> int {
    if ms >= 0 { ms as int } else { 0 }
}

/// A URL gravada, se ainda for uma URL de atividade válida; senão nenhuma.
pub open spec fn url_degradada(url: Option<String>) -> Option<PartesDeUrl> {
    match url {
        Some(bruta) => match url_interpretada(bruta@) {
            Some(p) => if esquema_permitido(p.1) { Some(p) } else { None },
            None => None,
        },
        None => None,
    }
}

/// A atividade lida do arquivo.
pub open spec fn atividade_lida(a: AtividadePersistida) -> AtividadeView {
    AtividadeView {
        nome: match a.nome {
            Some(n) => Some(n@),
            None => None,
        },
        url: url_degradada(a.url),
    }
}

/// A sessão lida do arquivo.
pub open spec fn sessao_lida(s: SessaoPersistida) -> SessaoView {
    SessaoView {
        foco: ms_degradado(s.foco_ms),
        pausa: ms_degradado(s.pausa_ms),
        atividade: atividade_lida(s.atividade),
    }
}

/// O dia lido do arquivo.
pub open spec fn dia_lido(d: DiaPersistido) -> DiaView {
    DiaView {
        dia: Data::de_spec(d.ano, d.mes, d.dia),
        sessoes_concluidas: d.sessoes_concluidas as nat,
        tempo_de_foco: ms_degradado(d.tempo_de_foco_ms),
        pausas_interrompidas: d.pausas_interrompidas as nat,
    }
}

/// O plano lido do arquivo.
pub open spec fn plano_lido(c: ConfiguracaoPersistida) -> PlanoView {
    PlanoView {
        modo: c.modo,
        duracao_global_foco: ms_degradado(c.duracao_global_foco_ms),
        duracao_global_pausa: ms_degradado(c.duracao_global_pausa_ms),
        atividade_global: atividade_lida(c.atividade_global),
        plano_individual: c.plano_individual@.map_values(|s: SessaoPersistida| sessao_lida(s)),
    }
}

/// A atividade gravada corresponde à atividade do domínio.
pub open spec fn atividade_gravada(p: AtividadePersistida, a: AtividadeView) -> bool {
    &&& p.nome.is_some() == a.nome.is_some()
    &&& p.nome matches Some(n) ==> n@ == a.nome->0
    &&& p.url.is_some() == a.url.is_some()
    &&& p.url matches Some(u) ==> u@ == (a.url->0).0
}

/// A sessão gravada corresponde à sessão do domínio.
pub open spec fn sessao_gravada(p: SessaoPersistida, s: SessaoView) -> bool {
    &&& p.foco_ms == s.foco
    &&& p.pausa_ms == s.pausa
    &&& atividade_gravada(p.atividade, s.atividade)
}

/// O dia gravado corresponde ao dia do domínio.
pub open spec fn dia_gravado(p: DiaPersistido, d: DiaView) -> bool {
    &&& (p.ano, p.mes, p.dia) == d.dia@
    &&& p.sessoes_concluidas == d.sessoes_concluidas
    &&& p.tempo_de_foco_ms == d.tempo_de_foco
    &&& p.pausas_interrompidas == d.pausas_interrompidas
}

/// `p` é a configuração `c` como gravada: os mesmos valores, em texto e
/// milissegundos.
pub open spec fn configuracao_gravada(p: ConfiguracaoPersistida, c: Configuracao) -> bool {
    &&& p.modo == c.plano@.modo
    &&& p.duracao_global_foco_ms == c.plano@.duracao_global_foco
    &&& p.duracao_global_pausa_ms == c.plano@.duracao_global_pausa
    &&& atividade_gravada(p.atividade_global, c.plano@.atividade_global)
    &&& p.plano_individual@.len() == c.plano@.plano_individual.len()
    &&& forall|i: int| 0 <= i < p.plano_individual@.len()
        ==> sessao_gravada(#[trigger] p.plano_individual@[i], c.plano@.plano_individual[i])
    &&& p.iniciar_automaticamente == c.iniciar_automaticamente
    &&& p.historico@.len() == c.historico@.len()
    &&& forall|i: int| 0 <= i < p.historico@.len()
        ==> dia_gravado(#[trigger] p.historico@[i], c.historico@[i])
    &&& p.posicao_do_widget == c.posicao_do_widget
}

/// A URL, relida a partir do seu texto, dá as mesmas partes, e o esquema é
/// permitido.
pub open spec fn url_estavel(u: PartesDeUrl) -> bool {
    url_interpretada(u.0) == Some(u) && esquema_permitido(u.1)
}

/// Uma configuração que volta igual depois de gravada e relida: durações
/// não negativas, URLs estáveis e histórico dentro da capacidade do anel.
pub open spec fn relida_sem_perdas(c: Configuracao) -> bool {
    &&& c.plano@.duracao_global_foco >= 0
    &&& c.plano@.duracao_global_pausa >= 0
    &&& (c.plano@.atividade_global.url matches Some(u) ==> url_estavel(u))
    &&& forall|i: int| 0 <= i < c.plano@.plano_individual.len() ==> {
        let s = #[trigger] c.plano@.plano_individual[i];
        &&& s.foco >= 0
        &&& s.pausa >= 0
        &&& (s.atividade.url matches Some(u) ==> url_estavel(u))
    }
    &&& c.historico@.len() <= CAPACIDADE_EM_DIAS
    &&& forall|i: int| 0 <= i < c.historico@.len() ==> (#[trigger] c.historico@[i]).tempo_de_foco >= 0
}

proof fn atividade_relida(p: AtividadePersistida, a: AtividadeView)
    requires
        atividade_gravada(p, a),
        a.url matches Some(u) ==> url_estavel(u),
    ensures
        atividade_lida(p) == a,
{
}

/// Ler de volta o que se gravou devolve a mesma configuração: o mesmo plano,
/// a mesma flag de autostart, o mesmo histórico e a mesma posição do widget.
pub proof fn ler_o_que_se_gravou_devolve_a_configuracao(p: ConfiguracaoPersistida, c: Configuracao)
    requires
        configuracao_gravada(p, c),
        relida_sem_perdas(c),
    ensures
        plano_lido(p) == c.plano@,
        p.iniciar_automaticamente == c.iniciar_automaticamente,
        ultimos_dias(p.historico@.map_values(|d: DiaPersistido| dia_lido(d))) == c.historico@,
        p.posicao_do_widget == c.posicao_do_widget,
{
    atividade_relida(p.atividade_global, c.plano@.atividade_global);
    let sessoes = p.plano_individual@.map_values(|s: SessaoPersistida| sessao_lida(s));
    assert forall|i: int| 0 <= i < sessoes.len() implies sessoes[i] == c.plano@.plano_individual[i] by {
        let gravada = p.plano_individual@[i];
        assert(sessao_gravada(gravada, c.plano@.plano_individual[i]));
        atividade_relida(gravada.atividade, c.plano@.plano_individual[i].atividade);
    }
    assert(sessoes =~= c.plano@.plano_individual);
    let dias = p.historico@.map_values(|d: DiaPersistido| dia_lido(d));
    assert forall|i: int| 0 <= i < dias.len() implies dias[i] == c.historico@[i] by {
        let gravado = p.historico@[i];
        assert(dia_gravado(gravado, c.historico@[i]));
        Data::de_spec_visao(gravado.ano, gravado.mes, gravado.dia);
        datas_iguais_pela_visao(Data::de_spec(gravado.ano, gravado.mes, gravado.dia), c.historico@[i].dia);
    }
    assert(dias =~= c.historico@);
}

fn atividade_de(a: &Atividade) -> (r: AtividadePersistida)
    ensures
        atividade_gravada(r, a@),
{
    let nome = match a.nome() {
        Some(n) => Some(String::from_str(n)),
        None => None,
    };
    let url = match a.url() {
        Some(u) => Some(String::from_str(u.como_str())),
        None => None,
    };
    AtividadePersistida { nome, url }
}

fn atividade_para_dominio(a: AtividadePersistida) -> (r: Atividade)
    ensures
        r@ == atividade_lida(a),
{
    let url = match &a.url {
        Some(bruta) => match UrlDeAtividade::nova(bruta.as_str()) {
            Ok(u) => Some(u),
            Err(_) => None,
        },
        None => None,
    };
    let ghost nome = a.nome;
    let r = Atividade::nova(a.nome, url);
    assert(r@.nome == atividade_lida(AtividadePersistida { nome, url: a.url }).nome);
    r
}

fn duracao_degradada(ms: i64) -> (r: Duracao)
    ensures
        r@ == ms_degradado(ms),
{
    match Duracao::de_ms(ms) {
        Ok(d) => d,
        Err(_) => Duracao::zero(),
    }
}

impl ConfiguracaoPersistida {
    /// A configuração em valores simples, na versão atual.
    pub fn de(config: &Configuracao) -> (r: Self)
        ensures
            r.versao == VERSAO_ATUAL,
            configuracao_gravada(r, *config),
    {
        let sessoes = config.plano.plano_individual();
        let mut plano_individual: Vec<SessaoPersistida> = Vec::new();
        let mut i: usize = 0;
        while i < sessoes.len()
            invariant
                i <= sessoes@.len(),
                visao_das_sessoes(sessoes@) == config.plano@.plano_individual,
                plano_individual@.len() == i,
                forall|k: int|
                    0 <= k < i ==> sessao_gravada(
                        #[trigger] plano_individual@[k],
                        config.plano@.plano_individual[k],
                    ),
            decreases sessoes@.len() - i,
        {
            let sessao = &sessoes[i];
            plano_individual.push(
                SessaoPersistida {
                    foco_ms: sessao.foco().em_ms(),
                    pausa_ms: sessao.pausa().em_ms(),
                    atividade: atividade_de(sessao.atividade()),
                },
            );
            i = i + 1;
        }
        let dias = config.historico.dias();
        let mut historico: Vec<DiaPersistido> = Vec::new();
        let mut j: usize = 0;
        while j < dias.len()
            invariant
                j <= dias@.len(),
                visao_dos_dias(dias@) == config.historico@,
                historico@.len() == j,
                forall|k: int|
                    0 <= k < j ==> dia_gravado(#[trigger] historico@[k], config.historico@[k]),
            decreases dias@.len() - j,
        {
            let dia = dias[j];
            let data = dia.dia_de_referencia();
            historico.push(
                DiaPersistido {
                    ano: data.ano(),
                    mes: data.mes(),
                    dia: data.dia(),
                    sessoes_concluidas: dia.sessoes_concluidas(),
                    tempo_de_foco_ms: dia.tempo_de_foco().em_ms(),
                    pausas_interrompidas: dia.pausas_interrompidas(),
                },
            );
            j = j + 1;
        }
        Self {
            versao: VERSAO_ATUAL,
            modo: config.plano.modo(),
            duracao_global_foco_ms: config.plano.duracao_global_foco().em_ms(),
            duracao_global_pausa_ms: config.plano.duracao_global_pausa().em_ms(),
            atividade_global: atividade_de(config.plano.atividade_global()),
            plano_individual,
            iniciar_automaticamente: config.iniciar_automaticamente,
            historico,
            posicao_do_widget: config.posicao_do_widget,
        }
    }

    /// A configuração do domínio, degradando em vez de falhar: duração
    /// negativa vira zero, URL que não valida mais é descartada, e o
    /// histórico guarda só os dias mais recentes que cabem no anel.
    pub fn para_configuracao(self) -> (r: Configuracao)
        ensures
            r.plano@ == plano_lido(self),
            r.iniciar_automaticamente == self.iniciar_automaticamente,
            r.historico@ == ultimos_dias(self.historico@.map_values(|d: DiaPersistido| dia_lido(d))),
            r.posicao_do_widget == self.posicao_do_widget,
    {
        let ghost original = self;
        let ConfiguracaoPersistida {
            versao: _,
            modo,
            duracao_global_foco_ms,
            duracao_global_pausa_ms,
            atividade_global,
            plano_individual: sessoes_gravadas,
            iniciar_automaticamente,
            historico: dias_gravados,
            posicao_do_widget,
        } = self;
        let mut sessoes: Vec<Sessao> = Vec::new();
        let mut i: usize = 0;
        while i < sessoes_gravadas.len()
            invariant
                i <= sessoes_gravadas@.len(),
                sessoes_gravadas == original.plano_individual,
                sessoes@.len() == i,
                forall|k: int|
                    0 <= k < i ==> (#[trigger] sessoes@[k])@ == sessao_lida(sessoes_gravadas@[k]),
            decreases sessoes_gravadas@.len() - i,
        {
            let gravada = &sessoes_gravadas[i];
            let atividade = AtividadePersistida {
                nome: match &gravada.atividade.nome {
                    Some(n) => Some(n.clone()),
                    None => None,
                },
                url: match &gravada.atividade.url {
                    Some(u) => Some(u.clone()),
                    None => None,
                },
            };
            let ghost lida = atividade_lida(atividade);
            assert(lida == atividade_lida(gravada.atividade));
            let sessao = Sessao::nova(
                duracao_degradada(gravada.foco_ms),
                duracao_degradada(gravada.pausa_ms),
            ).com_atividade(atividade_para_dominio(atividade));
            sessoes.push(sessao);
            i = i + 1;
        }
        assert(visao_das_sessoes(sessoes@) =~= original.plano_individual@.map_values(
            |s: SessaoPersistida| sessao_lida(s),
        ));
        let ghost global_lida = atividade_lida(atividade_global);
        let plano = PlanoDoCiclo::reconstruir(
            modo,
            duracao_degradada(duracao_global_foco_ms),
            duracao_degradada(duracao_global_pausa_ms),
            atividade_para_dominio(atividade_global),
            sessoes,
        );
        let mut dias: Vec<ContadoresDoDia> = Vec::new();
        let mut j: usize = 0;
        while j < dias_gravados.len()
            invariant
                j <= dias_gravados@.len(),
                dias_gravados == original.historico,
                dias@.len() == j,
                forall|k: int|
                    0 <= k < j ==> (#[trigger] dias@[k])@ == dia_lido(dias_gravados@[k]),
            decreases dias_gravados@.len() - j,
        {
            let d = &dias_gravados[j];
            dias.push(
                ContadoresDoDia::reconstruir(
                    Data::de(d.ano, d.mes, d.dia),
                    d.sessoes_concluidas,
                    duracao_degradada(d.tempo_de_foco_ms),
                    d.pausas_interrompidas,
                ),
            );
            j = j + 1;
        }
        assert(visao_dos_dias(dias@) =~= original.historico@.map_values(
            |d: DiaPersistido| dia_lido(d),
        ));
        let historico = HistoricoDiario::reconstruir(dias);
        Configuracao { plano, iniciar_automaticamente, historico, posicao_do_widget }
    }

    /// Aceita só a versão atual do formato; qualquer outra é recusada.
    pub fn interpretar(self) -> (r: Result<Configuracao, VersaoDesconhecida>)
        ensures
            (self.versao == VERSAO_ATUAL) <==> r is Ok,
            r matches Err(e) ==> e == (VersaoDesconhecida {
                recebida: self.versao,
                esperada: VERSAO_ATUAL,
            }),
            r matches Ok(c) ==> c.plano@ == plano_lido(self) && c.iniciar_automaticamente
                == self.iniciar_automaticamente && c.historico@ == ultimos_dias(
                self.historico@.map_values(|d: DiaPersistido| dia_lido(d)),
            ) && c.posicao_do_widget == self.posicao_do_widget,
    {
        if self.versao != VERSAO_ATUAL {
            return Err(VersaoDesconhecida { recebida: self.versao, esperada: VERSAO_ATUAL });
        }
        Ok(self.para_configuracao())
    }
}

} // verus!
