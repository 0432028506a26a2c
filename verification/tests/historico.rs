use pomodoro::contadores_do_dia::ContadoresDoDia;
use pomodoro::data::Data;
use pomodoro::historico_diario::HistoricoDiario;
use pomodoro::relogio::Relogio;
use pomodoro::tempo::{Duracao, Instante};
use std::sync::atomic::{AtomicI64, Ordering};
use std::sync::Mutex;

/// Relógio de teste com a virada do dia desacoplada do instante.
struct RelogioFake {
    epoca_ms: AtomicI64,
    hoje: Mutex<Data>,
}

impl RelogioFake {
    fn parado_em(instante: Instante) -> Self {
        Self {
            epoca_ms: AtomicI64::new(instante.epoca_ms()),
            hoje: Mutex::new(Data::de(2026, 1, 1)),
        }
    }

    fn mudar_dia(&self, novo: Data) {
        *self.hoje.lock().expect("lock do dia fake") = novo;
    }
}

impl Relogio for RelogioFake {
    fn agora(&self) -> Instante {
        Instante::desde_epoca_ms(self.epoca_ms.load(Ordering::SeqCst))
    }

    fn hoje(&self) -> Data {
        *self.hoje.lock().expect("lock do dia fake")
    }
}

#[test]
fn dia_vazio_nao_tem_contadores() {
    let dia = ContadoresDoDia::vazio(Data::de(2026, 8, 23));
    assert_eq!(dia.sessoes_concluidas(), 0);
    assert_eq!(dia.tempo_de_foco(), Duracao::zero());
    assert_eq!(dia.pausas_interrompidas(), 0);
}

#[test]
fn sessao_concluida_incrementa_contagem_e_soma_tempo() {
    let dia = ContadoresDoDia::vazio(Data::de(2026, 8, 23)).com_sessao_concluida(Duracao::de_minutos(25));
    assert_eq!(dia.sessoes_concluidas(), 1);
    assert_eq!(dia.tempo_de_foco(), Duracao::de_minutos(25));
}

#[test]
fn foco_parcial_soma_tempo_sem_contar_sessao() {
    let dia = ContadoresDoDia::vazio(Data::de(2026, 8, 23)).com_foco_somado(Duracao::de_minutos(12));
    assert_eq!(dia.sessoes_concluidas(), 0);
    assert_eq!(dia.tempo_de_foco(), Duracao::de_minutos(12));
}

#[test]
fn pausa_interrompida_incrementa_so_o_proprio_contador() {
    let dia = ContadoresDoDia::vazio(Data::de(2026, 8, 23)).com_pausa_interrompida();
    assert_eq!(dia.pausas_interrompidas(), 1);
    assert_eq!(dia.sessoes_concluidas(), 0);
}

#[test]
fn reconstruir_dia_guarda_os_contadores_dados() {
    let dia = ContadoresDoDia::reconstruir(Data::de(2026, 8, 23), 3, Duracao::de_minutos(75), 2);
    assert_eq!(dia.dia_de_referencia(), Data::de(2026, 8, 23));
    assert_eq!(dia.sessoes_concluidas(), 3);
    assert_eq!(dia.tempo_de_foco(), Duracao::de_minutos(75));
    assert_eq!(dia.pausas_interrompidas(), 2);
}

#[test]
fn dia_atual_sem_registro_devolve_vazio() {
    let historico = HistoricoDiario::vazio();
    let hoje = Data::de(2026, 8, 23);
    assert_eq!(historico.dia_atual(hoje), ContadoresDoDia::vazio(hoje));
}

#[test]
fn registrar_sessao_concluida_cria_o_dia_e_incrementa() {
    let hoje = Data::de(2026, 8, 23);
    let historico = HistoricoDiario::vazio().registrar_sessao_concluida(hoje, Duracao::de_minutos(25));
    let dia = historico.dia_atual(hoje);
    assert_eq!(dia.sessoes_concluidas(), 1);
    assert_eq!(dia.tempo_de_foco(), Duracao::de_minutos(25));
}

#[test]
fn registrar_foco_parcial_nao_incrementa_sessao() {
    let hoje = Data::de(2026, 8, 23);
    let historico = HistoricoDiario::vazio().registrar_foco_parcial(hoje, Duracao::de_minutos(12));
    let dia = historico.dia_atual(hoje);
    assert_eq!(dia.sessoes_concluidas(), 0);
    assert_eq!(dia.tempo_de_foco(), Duracao::de_minutos(12));
}

#[test]
fn registrar_pausa_interrompida_conta_so_no_dia_de_hoje() {
    let hoje = Data::de(2026, 8, 23);
    let historico = HistoricoDiario::vazio()
        .registrar_pausa_interrompida(hoje)
        .registrar_pausa_interrompida(hoje);
    assert_eq!(historico.dia_atual(hoje).pausas_interrompidas(), 2);
    assert_eq!(historico.dias().len(), 1);
}

#[test]
fn virada_de_dia_com_relogio_fake_preserva_o_dia_anterior() {
    let relogio = RelogioFake::parado_em(Instante::desde_epoca_ms(0));
    relogio.mudar_dia(Data::de(2026, 8, 22));
    let historico =
        HistoricoDiario::vazio().registrar_sessao_concluida(relogio.hoje(), Duracao::de_minutos(25));

    relogio.mudar_dia(Data::de(2026, 8, 23));
    let historico = historico.registrar_sessao_concluida(relogio.hoje(), Duracao::de_minutos(25));

    let ontem = historico.dia_atual(Data::de(2026, 8, 22));
    let hoje = historico.dia_atual(Data::de(2026, 8, 23));
    assert_eq!(ontem.sessoes_concluidas(), 1);
    assert_eq!(hoje.sessoes_concluidas(), 1);
    assert_eq!(historico.dias().into_iter().count(), 2);
}

#[test]
fn anel_de_90_dias_descarta_o_mais_antigo_ao_transbordar() {
    let mut historico = HistoricoDiario::vazio();
    for dia in 1..=91u8 {
        historico = historico.registrar_sessao_concluida(Data::de(2026, 1, dia), Duracao::zero());
    }
    assert_eq!(historico.dias().into_iter().count(), 90);
    assert!(historico
        .dias()
        .into_iter()
        .all(|d| d.dia_de_referencia() != Data::de(2026, 1, 1)));
    assert_eq!(historico.dia_atual(Data::de(2026, 1, 91)).sessoes_concluidas(), 1);
}

#[test]
fn reconstruir_alem_da_capacidade_descarta_os_mais_antigos() {
    let dias: Vec<_> = (1..=95u8)
        .map(|dia| ContadoresDoDia::vazio(Data::de(2026, 1, dia)))
        .collect();
    let historico = HistoricoDiario::reconstruir(dias);
    assert_eq!(historico.dias().into_iter().count(), 90);
    assert_eq!(
        historico.dias().into_iter().next().map(|d| d.dia_de_referencia()),
        Some(Data::de(2026, 1, 6))
    );
}

#[test]
fn reconstruir_dentro_da_capacidade_preserva_os_dias_em_ordem() {
    let dias = vec![
        ContadoresDoDia::vazio(Data::de(2026, 1, 1)),
        ContadoresDoDia::vazio(Data::de(2026, 1, 2)),
    ];
    let historico = HistoricoDiario::reconstruir(dias.clone());
    assert_eq!(historico.dias(), dias);
}
